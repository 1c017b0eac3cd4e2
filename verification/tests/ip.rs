use mine_status::ip::client_ip;

#[test]
fn forwarded_header_wins() {
    let ip = client_ip(
        Some(Some("203.0.113.7".to_string())),
        "127.0.0.1".to_string(),
    );
    assert_eq!(ip, "203.0.113.7");
}

#[test]
fn peer_address_without_header() {
    let ip = client_ip(None, "::1".to_string());
    assert_eq!(ip, "::1");
}

#[test]
fn unreadable_header_falls_back_to_peer() {
    let ip = client_ip(Some(None), "198.51.100.2".to_string());
    assert_eq!(ip, "198.51.100.2");
}
