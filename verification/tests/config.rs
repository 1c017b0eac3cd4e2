use mine_status::config::{Config, ConfigError, ListenStack};

#[test]
fn full_document_decodes() {
    let text = "listen_port 9090\nlisten_stack \"v6\"\nservices \"web\" \"db\"\n";
    let config = Config::from_kdl_text(text).unwrap();
    assert_eq!(config.listen_port, 9090);
    assert!(matches!(config.listen_stack, ListenStack::V6));
    assert_eq!(config.services, vec!["web".to_string(), "db".to_string()]);
}

#[test]
fn defaults_when_nodes_are_absent() {
    let config = Config::from_kdl_text("").unwrap();
    assert_eq!(config.listen_port, 8080);
    assert!(matches!(config.listen_stack, ListenStack::Both));
    assert!(config.services.is_empty());
}

#[test]
fn stack_words_decode() {
    let v4 = Config::from_kdl_text("listen_stack \"v4\"").unwrap();
    assert!(matches!(v4.listen_stack, ListenStack::V4));
    let both = Config::from_kdl_text("listen_stack \"both\"").unwrap();
    assert!(matches!(both.listen_stack, ListenStack::Both));
}

#[test]
fn port_keeps_low_sixteen_bits() {
    let config = Config::from_kdl_text("listen_port 70000").unwrap();
    assert_eq!(config.listen_port, 4464);
}

#[test]
fn non_integer_port_is_fatal() {
    let err = Config::from_kdl_text("listen_port \"eighty\"").unwrap_err();
    assert!(matches!(err, ConfigError::PortNotInteger));
}

#[test]
fn unknown_stack_word_is_fatal() {
    let err = Config::from_kdl_text("listen_stack \"v5\"").unwrap_err();
    assert!(matches!(err, ConfigError::StackNotRecognized));
    let err2 = Config::from_kdl_text("listen_stack 4").unwrap_err();
    assert!(matches!(err2, ConfigError::StackNotRecognized));
}

#[test]
fn non_string_service_is_fatal() {
    let err = Config::from_kdl_text("services \"web\" 3").unwrap_err();
    assert!(matches!(err, ConfigError::ServiceNotString));
}

#[test]
fn malformed_text_is_a_syntax_error() {
    let err = Config::from_kdl_text("services \"unclosed").unwrap_err();
    assert!(matches!(err, ConfigError::Syntax(_)));
}

#[test]
fn assemble_checks_port_before_stack_and_services() {
    let args = vec![None::<String>];
    let err = Config::assemble(Some(None), Some(None), &args).unwrap_err();
    assert!(matches!(err, ConfigError::PortNotInteger));
    let err2 = Config::assemble(None, Some(None), &args).unwrap_err();
    assert!(matches!(err2, ConfigError::StackNotRecognized));
    let err3 = Config::assemble(None, None, &args).unwrap_err();
    assert!(matches!(err3, ConfigError::ServiceNotString));
}

#[test]
fn assemble_keeps_service_order() {
    let args = vec![
        Some("alpha".to_string()),
        Some("beta".to_string()),
        Some("gamma".to_string()),
    ];
    let config = Config::assemble(None, None, &args).unwrap();
    assert_eq!(
        config.services,
        vec!["alpha".to_string(), "beta".to_string(), "gamma".to_string()]
    );
}
