use backend_config::{
    Backend, BackendConfigError, BackendsConfig, Table, Value,
};

fn entry(pairs: Vec<(&str, Value)>) -> Table {
    let mut t = Table::new();
    for (k, v) in pairs {
        t.push(k.to_string(), v);
    }
    t
}

fn str_val(v: &str) -> Value {
    Value::String(v.to_string())
}

#[test]
fn minimal_valid_entry_uses_defaults() {
    let t = entry(vec![("url", str_val("https://example.com"))]);
    let b = Backend::try_from(&t).unwrap();
    assert_eq!(b.uri, "https://example.com");
    assert_eq!(b.override_host, None);
    assert_eq!(b.cert_host, None);
    assert!(b.use_sni);
    assert!(!b.grpc);
}

#[test]
fn configured_values_are_kept_literally() {
    let t = entry(vec![
        ("url", str_val("http://example.com:8080/path")),
        ("override_host", str_val("example.org")),
        ("cert_host", str_val("example.net")),
        ("use_sni", Value::Boolean(false)),
        ("grpc", Value::Boolean(true)),
    ]);
    let b = Backend::try_from(&t).unwrap();
    assert_eq!(b.uri, "http://example.com:8080/path");
    assert_eq!(b.override_host.as_deref(), Some("example.org"));
    assert_eq!(b.cert_host.as_deref(), Some("example.net"));
    assert!(!b.use_sni);
    assert!(b.grpc);
}

#[test]
fn explicit_defaults_accepted() {
    let t = entry(vec![
        ("url", str_val("https://example.com")),
        ("use_sni", Value::Boolean(true)),
        ("grpc", Value::Boolean(false)),
    ]);
    let b = Backend::try_from(&t).unwrap();
    assert!(b.use_sni);
    assert!(!b.grpc);
}

#[test]
fn missing_url_rejected() {
    let t = entry(vec![("grpc", Value::Boolean(true))]);
    assert!(matches!(
        Backend::try_from(&t),
        Err(BackendConfigError::MissingUrl)
    ));
}

#[test]
fn empty_entry_rejected_as_missing_url() {
    let t = Table::new();
    assert!(matches!(
        Backend::try_from(&t),
        Err(BackendConfigError::MissingUrl)
    ));
}

#[test]
fn missing_url_wins_over_other_fields() {
    let t = entry(vec![
        ("override_host", Value::Integer(3)),
        ("timeout", Value::Integer(30)),
    ]);
    assert!(matches!(
        Backend::try_from(&t),
        Err(BackendConfigError::MissingUrl)
    ));
}

#[test]
fn url_of_wrong_type_rejected() {
    let t = entry(vec![("url", Value::Integer(123))]);
    assert!(matches!(
        Backend::try_from(&t),
        Err(BackendConfigError::InvalidUrlEntry)
    ));
}

#[test]
fn unparseable_url_wraps_parse_error() {
    let t = entry(vec![("url", str_val("this is not a uri"))]);
    assert!(matches!(
        Backend::try_from(&t),
        Err(BackendConfigError::InvalidUri(_))
    ));
}

#[test]
fn empty_url_string_rejected() {
    let t = entry(vec![("url", str_val(""))]);
    assert!(matches!(
        Backend::try_from(&t),
        Err(BackendConfigError::InvalidUri(_))
    ));
}

#[test]
fn empty_override_host_rejected() {
    let t = entry(vec![
        ("url", str_val("https://example.com")),
        ("override_host", str_val("")),
    ]);
    assert!(matches!(
        Backend::try_from(&t),
        Err(BackendConfigError::EmptyOverrideHost)
    ));
}

#[test]
fn whitespace_override_host_rejected() {
    let t = entry(vec![
        ("url", str_val("https://example.com")),
        ("override_host", str_val(" \t  ")),
    ]);
    assert!(matches!(
        Backend::try_from(&t),
        Err(BackendConfigError::EmptyOverrideHost)
    ));
}

#[test]
fn override_host_of_wrong_type_rejected() {
    let t = entry(vec![
        ("url", str_val("https://example.com")),
        ("override_host", Value::Boolean(true)),
    ]);
    assert!(matches!(
        Backend::try_from(&t),
        Err(BackendConfigError::InvalidOverrideHostEntry)
    ));
}

#[test]
fn override_host_with_control_character_rejected() {
    let t = entry(vec![
        ("url", str_val("https://example.com")),
        ("override_host", str_val("bad\nvalue")),
    ]);
    assert!(matches!(
        Backend::try_from(&t),
        Err(BackendConfigError::InvalidHeaderValue(_))
    ));
}

#[test]
fn empty_cert_host_rejected() {
    let t = entry(vec![
        ("url", str_val("https://example.com")),
        ("cert_host", str_val("")),
    ]);
    assert!(matches!(
        Backend::try_from(&t),
        Err(BackendConfigError::EmptyCertHost)
    ));
}

#[test]
fn whitespace_cert_host_rejected() {
    let t = entry(vec![
        ("url", str_val("https://example.com")),
        ("cert_host", str_val("   ")),
    ]);
    assert!(matches!(
        Backend::try_from(&t),
        Err(BackendConfigError::EmptyCertHost)
    ));
}

#[test]
fn cert_host_of_wrong_type_rejected() {
    let t = entry(vec![
        ("url", str_val("https://example.com")),
        ("cert_host", Value::Integer(1)),
    ]);
    assert!(matches!(
        Backend::try_from(&t),
        Err(BackendConfigError::InvalidCertHostEntry)
    ));
}

#[test]
fn use_sni_of_wrong_type_rejected() {
    let t = entry(vec![
        ("url", str_val("https://example.com")),
        ("use_sni", str_val("yes")),
    ]);
    assert!(matches!(
        Backend::try_from(&t),
        Err(BackendConfigError::InvalidUseSniEntry)
    ));
}

#[test]
fn grpc_of_wrong_type_rejected() {
    let t = entry(vec![
        ("url", str_val("https://example.com")),
        ("grpc", Value::Integer(0)),
    ]);
    assert!(matches!(
        Backend::try_from(&t),
        Err(BackendConfigError::InvalidGrpcEntry)
    ));
}

#[test]
fn unrecognized_key_named() {
    let t = entry(vec![
        ("url", str_val("https://example.com")),
        ("timeout", Value::Integer(30)),
    ]);
    match Backend::try_from(&t) {
        Err(BackendConfigError::UnrecognizedKey(k)) => assert_eq!(k, "timeout"),
        other => panic!("expected UnrecognizedKey, got {:?}", other),
    }
}

#[test]
fn first_unrecognized_key_in_table_order_named() {
    let t = entry(vec![
        ("url", str_val("https://example.com")),
        ("retries", Value::Integer(2)),
        ("timeout", Value::Integer(30)),
    ]);
    match Backend::try_from(&t) {
        Err(BackendConfigError::UnrecognizedKey(k)) => assert_eq!(k, "retries"),
        other => panic!("expected UnrecognizedKey, got {:?}", other),
    }
}

#[test]
fn field_order_decides_first_error() {
    // A bad `override_host` is reported before a bad `cert_host`.
    let t = entry(vec![
        ("url", str_val("https://example.com")),
        ("cert_host", str_val("")),
        ("override_host", Value::Integer(1)),
    ]);
    assert!(matches!(
        Backend::try_from(&t),
        Err(BackendConfigError::InvalidOverrideHostEntry)
    ));
}

#[test]
fn revalidation_yields_identical_backends() {
    let build = || {
        entry(vec![
            ("url", str_val("https://example.com")),
            ("override_host", str_val("example.org")),
            ("use_sni", Value::Boolean(false)),
        ])
    };
    let t = build();
    let b1 = Backend::try_from(&t).unwrap();
    let b2 = Backend::try_from(&t).unwrap();
    let b3 = Backend::try_from(&build()).unwrap();
    assert_eq!(b1, b2);
    assert_eq!(b1, b3);
}

#[test]
fn whole_table_success() {
    let mut outer = Table::new();
    outer.push(
        "a".to_string(),
        Value::Table(entry(vec![("url", str_val("https://a.example"))])),
    );
    outer.push(
        "b".to_string(),
        Value::Table(entry(vec![
            ("url", str_val("https://b.example")),
            ("grpc", Value::Boolean(true)),
        ])),
    );
    let cfg = BackendsConfig::try_from(&outer).unwrap();
    assert_eq!(cfg.len(), 2);
    let a = cfg.get("a").unwrap();
    assert_eq!(a.uri, "https://a.example");
    assert!(!a.grpc);
    let b = cfg.get("b").unwrap();
    assert!(b.grpc);
    assert!(cfg.get("c").is_none());
}

#[test]
fn whole_table_fails_fast_and_names_second_backend() {
    let mut outer = Table::new();
    outer.push(
        "a".to_string(),
        Value::Table(entry(vec![("url", str_val("https://a"))])),
    );
    outer.push(
        "b".to_string(),
        Value::Table(entry(vec![("url", Value::Integer(123))])),
    );
    match BackendsConfig::try_from(&outer) {
        Err(e) => {
            assert_eq!(e.name, "b");
            assert!(matches!(e.err, BackendConfigError::InvalidUrlEntry));
        },
        Ok(_) => panic!("a table with one bad backend must not produce a configuration"),
    }
}

#[test]
fn entry_that_is_no_table_rejected() {
    let mut outer = Table::new();
    outer.push("a".to_string(), Value::Integer(7));
    match BackendsConfig::try_from(&outer) {
        Err(e) => {
            assert_eq!(e.name, "a");
            assert!(matches!(e.err, BackendConfigError::InvalidEntryType));
        },
        Ok(_) => panic!("a non-table entry must not produce a configuration"),
    }
}

#[test]
fn first_failing_entry_wins() {
    let mut outer = Table::new();
    outer.push("x".to_string(), Value::Table(Table::new()));
    outer.push("y".to_string(), Value::Other);
    match BackendsConfig::try_from(&outer) {
        Err(e) => {
            assert_eq!(e.name, "x");
            assert!(matches!(e.err, BackendConfigError::MissingUrl));
        },
        Ok(_) => panic!("expected an error"),
    }
}

#[test]
fn empty_table_yields_empty_config() {
    let cfg = BackendsConfig::try_from(&Table::new()).unwrap();
    assert_eq!(cfg.len(), 0);
    assert!(cfg.get("anything").is_none());
}

#[test]
fn table_lookup_finds_first_entry() {
    let t = entry(vec![("url", str_val("https://example.com"))]);
    assert_eq!(t.len(), 1);
    match t.get("url") {
        Some(Value::String(s)) => assert_eq!(s, "https://example.com"),
        other => panic!("expected the url entry, got {:?}", other),
    }
    assert!(t.get("override_host").is_none());
}
