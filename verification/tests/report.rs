use mine_status::status::{outcome_of, lookup_event, Completion, ProbeEvent, ServiceState, StatusReport};

#[test]
fn report_keeps_configuration_order() {
    // Completion order is c, then a; b never completes. The report must be
    // a, b, c with Up, Unknown, Down.
    let services = vec!["a".to_string(), "b".to_string(), "c".to_string()];
    let completions = vec![
        Completion { index: 2, event: ProbeEvent::Failure("connection refused".to_string()) },
        Completion { index: 0, event: ProbeEvent::Success },
    ];
    let report = StatusReport::assemble(&services, &completions);
    assert_eq!(report.entries.len(), 3);
    assert_eq!(report.entries[0].identifier, "a");
    assert_eq!(report.entries[0].state, ServiceState::Up);
    assert!(report.entries[0].detail.is_none());
    assert_eq!(report.entries[1].identifier, "b");
    assert_eq!(report.entries[1].state, ServiceState::Unknown);
    assert!(report.entries[1].detail.is_none());
    assert_eq!(report.entries[2].identifier, "c");
    assert_eq!(report.entries[2].state, ServiceState::Down);
    assert_eq!(report.entries[2].detail.as_deref(), Some("connection refused"));
}

#[test]
fn one_entry_per_service_whatever_completes() {
    let services: Vec<String> = (0..5).map(|i| format!("svc{}", i)).collect();
    // Only two probes completed, out of order.
    let completions = vec![
        Completion { index: 3, event: ProbeEvent::Success },
        Completion { index: 1, event: ProbeEvent::Failure("timeout handshaking".to_string()) },
    ];
    let report = StatusReport::assemble(&services, &completions);
    assert_eq!(report.entries.len(), services.len());
    for (i, entry) in report.entries.iter().enumerate() {
        assert_eq!(entry.identifier, services[i]);
    }
    assert_eq!(report.entries[1].state, ServiceState::Down);
    assert_eq!(report.entries[3].state, ServiceState::Up);
    assert_eq!(report.entries[0].state, ServiceState::Unknown);
    assert_eq!(report.entries[2].state, ServiceState::Unknown);
    assert_eq!(report.entries[4].state, ServiceState::Unknown);
}

#[test]
fn empty_service_list_gives_empty_report() {
    let services: Vec<String> = Vec::new();
    let completions: Vec<Completion> = Vec::new();
    let report = StatusReport::assemble(&services, &completions);
    assert_eq!(report.entries.len(), 0);
}

#[test]
fn timed_out_probe_is_unknown_not_dropped() {
    let outcome = outcome_of("slow".to_string(), ProbeEvent::TimedOut);
    assert_eq!(outcome.identifier, "slow");
    assert_eq!(outcome.state, ServiceState::Unknown);
    assert!(outcome.detail.is_none());
}

#[test]
fn probe_failure_keeps_its_detail() {
    let outcome = outcome_of("db".to_string(), ProbeEvent::Failure("refused".to_string()));
    assert_eq!(outcome.state, ServiceState::Down);
    assert_eq!(outcome.detail.as_deref(), Some("refused"));
}

#[test]
fn first_completion_for_an_index_counts() {
    let completions = vec![
        Completion { index: 0, event: ProbeEvent::Failure("first".to_string()) },
        Completion { index: 0, event: ProbeEvent::Success },
    ];
    let event = lookup_event(&completions, 0);
    assert!(matches!(event, ProbeEvent::Failure(d) if d == "first"));
    let missing = lookup_event(&completions, 7);
    assert!(matches!(missing, ProbeEvent::TimedOut));
}
