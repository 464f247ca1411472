use enarx_config::{
    default_addr, default_port, ConfigError, DocValue, EnarxConfig, File, FileName, Protocol,
};

const CONFIG: &str = r#"
        [[files]]
        kind = "stdin"

        [[files]]
        name = "X"
        kind = "listen"
        prot = "tcp"
        port = 9000

        [[files]]
        kind = "stdout"

        [[files]]
        kind = "null"

        [[files]]
        kind = "stderr"

        [[files]]
        kind = "connect"
        host = "example.com"
    "#;

#[test]
fn values() {
    let cfg = EnarxConfig::from_toml(CONFIG).unwrap();

    assert_eq!(
        cfg.files,
        vec![
            File::Stdin { name: None },
            File::Listen {
                name: FileName::from("X".to_string()),
                port: 9000,
                prot: Protocol::Tcp,
                addr: default_addr()
            },
            File::Stdout { name: None },
            File::Null { name: None },
            File::Stderr { name: None },
            File::Connect {
                name: None,
                port: default_port(),
                prot: Protocol::Tls,
                host: "example.com".to_string(),
            },
        ]
    );
}

#[test]
fn names() {
    let cfg = EnarxConfig::from_toml(CONFIG).unwrap();

    assert_eq!(
        vec!["stdin", "X", "stdout", "null", "stderr", "example.com"],
        cfg.files.iter().map(|f| f.name()).collect::<Vec<_>>()
    );
}

#[test]
fn invalid_name() {
    const CONFIG: &str = r#"
        [[files]]
        name = "test:"
        kind = "null"
        "#;

    let err = EnarxConfig::from_toml(CONFIG).unwrap_err();
    assert!(matches!(&err, ConfigError::InvalidName { value } if value == "test:"));
    assert_eq!(err, ConfigError::InvalidName { value: "test:".to_string() });
}

#[test]
fn untrusted_name_without_colon_is_kept_verbatim() {
    let n = FileName::from_untrusted("spool out".to_string()).unwrap();
    assert_eq!(n.as_str(), "spool out");
    let empty = FileName::from_untrusted(String::new()).unwrap();
    assert_eq!(empty.as_str(), "");
}

#[test]
fn untrusted_name_with_colon_is_rejected() {
    let err = FileName::from_untrusted("a:b".to_string()).unwrap_err();
    assert_eq!(err, ConfigError::InvalidName { value: "a:b".to_string() });
    assert!(FileName::from_untrusted(":".to_string()).is_err());
}

#[test]
fn missing_files_section_defaults_to_three_streams() {
    let cfg = EnarxConfig::from_toml("").unwrap();
    assert_eq!(
        cfg.files,
        vec![
            File::Stdin { name: None },
            File::Stdout { name: None },
            File::Stderr { name: None },
        ]
    );
    assert!(cfg.env.is_empty());
    assert!(cfg.args.is_empty());
    assert_eq!(cfg.steward, None);
}

#[test]
fn empty_files_section_stays_empty() {
    let cfg = EnarxConfig::from_toml("files = []\n").unwrap();
    assert_eq!(cfg.files, Vec::<File>::new());
}

#[test]
fn listen_without_name_fails() {
    const DOC: &str = r#"
        [[files]]
        kind = "listen"
        port = 8080
        "#;
    let err = EnarxConfig::from_toml(DOC).unwrap_err();
    assert_eq!(err, ConfigError::Missing { field: "name".to_string() });
}

#[test]
fn connect_without_host_fails() {
    const DOC: &str = r#"
        [[files]]
        kind = "connect"
        "#;
    let err = EnarxConfig::from_toml(DOC).unwrap_err();
    assert_eq!(err, ConfigError::Missing { field: "host".to_string() });
}

#[test]
fn unknown_kind_fails() {
    const DOC: &str = r#"
        [[files]]
        kind = "pipe"
        "#;
    let err = EnarxConfig::from_toml(DOC).unwrap_err();
    assert_eq!(err, ConfigError::UnknownKind { kind: "pipe".to_string() });
}

#[test]
fn missing_kind_fails() {
    const DOC: &str = r#"
        [[files]]
        name = "Y"
        "#;
    let err = EnarxConfig::from_toml(DOC).unwrap_err();
    assert_eq!(err, ConfigError::Missing { field: "kind".to_string() });
}

#[test]
fn port_out_of_range_fails() {
    const DOC: &str = r#"
        [[files]]
        kind = "connect"
        host = "example.com"
        port = 70000
        "#;
    let err = EnarxConfig::from_toml(DOC).unwrap_err();
    assert_eq!(err, ConfigError::BadType { field: "port".to_string() });
}

#[test]
fn unknown_protocol_fails() {
    const DOC: &str = r#"
        [[files]]
        kind = "connect"
        host = "example.com"
        prot = "udp"
        "#;
    let err = EnarxConfig::from_toml(DOC).unwrap_err();
    assert_eq!(err, ConfigError::BadType { field: "prot".to_string() });
}

#[test]
fn name_of_wrong_type_fails() {
    const DOC: &str = r#"
        [[files]]
        kind = "null"
        name = true
        "#;
    let err = EnarxConfig::from_toml(DOC).unwrap_err();
    assert_eq!(err, ConfigError::BadType { field: "name".to_string() });
}

#[test]
fn not_a_document_fails_as_syntax() {
    let err = EnarxConfig::from_toml("this is [ not = toml").unwrap_err();
    assert_eq!(err, ConfigError::Syntax);
}

#[test]
fn env_and_args_are_read_in_order() {
    const DOC: &str = r#"
        args = ["serve", "--quiet"]

        [env]
        HOME = "/root"
        TERM = "dumb"
        "#;
    let cfg = EnarxConfig::from_toml(DOC).unwrap();
    assert_eq!(cfg.args, vec!["serve".to_string(), "--quiet".to_string()]);
    assert_eq!(cfg.env.len(), 2);
    assert!(cfg.env.contains(&("HOME".to_string(), "/root".to_string())));
    assert!(cfg.env.contains(&("TERM".to_string(), "dumb".to_string())));
}

#[test]
fn env_value_of_wrong_type_fails() {
    const DOC: &str = r#"
        [env]
        PORT = 9000
        "#;
    let err = EnarxConfig::from_toml(DOC).unwrap_err();
    assert_eq!(err, ConfigError::BadType { field: "env".to_string() });
}

#[test]
fn steward_url_is_kept() {
    let cfg = EnarxConfig::from_toml("steward = \"https://steward.example.com/\"\n").unwrap();
    assert_eq!(cfg.steward, Some("https://steward.example.com/".to_string()));
}

#[test]
fn steward_that_is_no_url_fails() {
    let err = EnarxConfig::from_toml("steward = \"not a url\"\n").unwrap_err();
    assert_eq!(err, ConfigError::BadUrl { value: "not a url".to_string() });
}

#[test]
fn listen_applies_documented_defaults() {
    const DOC: &str = r#"
        [[files]]
        kind = "listen"
        name = "LISTEN"
        "#;
    let cfg = EnarxConfig::from_toml(DOC).unwrap();
    assert_eq!(
        cfg.files,
        vec![File::Listen {
            name: FileName::from("LISTEN".to_string()),
            addr: "::".to_string(),
            port: 443,
            prot: Protocol::Tls,
        }]
    );
}

#[test]
fn connect_name_falls_back_to_host_and_explicit_name_wins() {
    let with_fallback = File::Connect {
        name: None,
        host: "example.com".to_string(),
        port: 443,
        prot: Protocol::Tls,
    };
    assert_eq!(with_fallback.name(), "example.com");
    let with_name = File::Connect {
        name: Some(FileName::from("OUT".to_string())),
        host: "example.com".to_string(),
        port: 443,
        prot: Protocol::Tls,
    };
    assert_eq!(with_name.name(), "OUT");
    let null_named = File::Null { name: Some(FileName::from("sink".to_string())) };
    assert_eq!(null_named.name(), "sink");
    let null_unnamed = File::Null { name: None };
    assert_eq!(null_unnamed.name(), "null");
}

#[test]
fn default_config_is_three_streams() {
    let cfg = EnarxConfig::default();
    assert_eq!(
        cfg.files,
        vec![
            File::Stdin { name: None },
            File::Stdout { name: None },
            File::Stderr { name: None },
        ]
    );
    assert!(cfg.env.is_empty());
    assert!(cfg.args.is_empty());
    assert_eq!(cfg.steward, None);
    assert_eq!(Protocol::default(), Protocol::Tls);
}

#[test]
fn documented_defaults() {
    assert_eq!(default_port(), 443);
    assert_eq!(default_addr(), "::".to_string());
}

#[test]
fn rendering_and_reparsing_is_identity() {
    const DOC: &str = r#"
        args = ["run"]
        steward = "https://steward.example.com/"

        [env]
        HOME = "/root"

        [[files]]
        kind = "stdin"

        [[files]]
        name = "X"
        kind = "listen"
        prot = "tcp"
        port = 9000

        [[files]]
        kind = "connect"
        host = "example.com"
        "#;
    let cfg = EnarxConfig::from_toml(DOC).unwrap();
    assert!(cfg.is_wf());
    let reparsed = EnarxConfig::from_value(&cfg.to_value()).unwrap();
    assert_eq!(cfg, reparsed);
}

#[test]
fn rendering_the_default_config_reparses_to_itself() {
    let cfg = EnarxConfig::default();
    assert!(cfg.is_wf());
    let reparsed = EnarxConfig::from_value(&cfg.to_value()).unwrap();
    assert_eq!(cfg, reparsed);
}

#[test]
fn a_config_with_a_reserved_name_is_not_well_formed() {
    let cfg = EnarxConfig {
        env: Vec::new(),
        args: Vec::new(),
        files: vec![File::Stdout { name: Some(FileName::from("a:b".to_string())) }],
        steward: None,
    };
    assert!(!cfg.is_wf());
}

#[test]
fn listen_with_explicit_addr_and_boundary_port() {
    const DOC: &str = r#"
        [[files]]
        kind = "listen"
        name = "EDGE"
        addr = "127.0.0.1"
        port = 65535
        prot = "tls"
        "#;
    let cfg = enarx_config::EnarxConfig::from_toml(DOC).unwrap();
    assert_eq!(
        cfg.files,
        vec![File::Listen {
            name: FileName::from("EDGE".to_string()),
            addr: "127.0.0.1".to_string(),
            port: 65535,
            prot: Protocol::Tls,
        }]
    );
}

#[test]
fn file_from_value_dispatches_on_kind() {
    let t = DocValue::Table(vec![
        ("kind".to_string(), DocValue::Str("stdin".to_string())),
        ("name".to_string(), DocValue::Str("IN".to_string())),
    ]);
    let f = File::from_value(&t).unwrap();
    assert_eq!(f, File::Stdin { name: Some(FileName::from("IN".to_string())) });
    assert_eq!(f.name(), "IN");
}

#[test]
fn file_to_value_renders_a_table_that_parses_back() {
    let f = File::Connect {
        name: Some(FileName::from("OUT".to_string())),
        host: "example.com".to_string(),
        port: 8443,
        prot: Protocol::Tcp,
    };
    let parsed = File::from_value(&f.to_value()).unwrap();
    assert_eq!(f, parsed);
}
