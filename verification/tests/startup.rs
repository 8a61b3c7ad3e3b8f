use tcp_relay::config::{args_present, parse_config};

#[test]
fn args_present_requires_both_addresses() {
    assert!(args_present("127.0.0.1:8080", "127.0.0.1:80"));
    assert!(!args_present("", "127.0.0.1:80"));
    assert!(!args_present("127.0.0.1:8080", ""));
    assert!(!args_present("", ""));
}

#[test]
fn yaml_mapping_parses() {
    let map = match parse_config("host: localhost\nport: 8080") {
        Some(m) => m,
        None => panic!("a YAML mapping must parse"),
    };
    assert_eq!(map.len(), 2);
    assert_eq!(
        map.get("host"),
        Some(&serde_yaml::Value::String("localhost".to_string()))
    );
    assert_eq!(
        map.get("port"),
        Some(&serde_yaml::Value::Number(serde_yaml::Number::from(8080)))
    );
}

#[test]
fn yaml_non_mapping_is_rejected() {
    // a YAML sequence is not a mapping from strings to values
    assert!(parse_config("- one\n- two").is_none());
    // broken YAML syntax
    assert!(parse_config("key: [unclosed").is_none());
}
