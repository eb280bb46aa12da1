use middleman::config::{get_config, validate, CliArgs, ConfigError, IpAddress, TomlConfig};

fn args() -> CliArgs {
    CliArgs {
        port: None,
        upstream: None,
        upstream_port: 80,
        upstream_tls: false,
        tapes: None,
        bind: None,
        config_path: "middleman.toml".to_string(),
        replay_only: false,
        listen_tls: false,
        tls_port: 5443,
        cert_file: None,
        private_key_file: None,
    }
}

fn toml() -> TomlConfig {
    TomlConfig {
        port: None,
        upstream: None,
        tapes: None,
        bind: None,
        replay_only: None,
        listen_tls: None,
        tls_port: None,
        cert_file: None,
        private_key_file: None,
        upstream_tls: None,
        upstream_port: None,
    }
}

const IP: IpAddress = IpAddress::V4([127, 0, 0, 1]);

#[test]
fn defaults_apply_where_nothing_is_given() {
    let mut a = args();
    a.upstream = Some("example.org".to_string());
    let c = get_config(a, toml(), IP).unwrap();
    assert_eq!(c.port, 5050);
    assert_eq!(c.upstream, "example.org");
    assert!(matches!(c.upstream_ip, IpAddress::V4([127, 0, 0, 1])));
    assert!(!c.upstream_tls);
    assert_eq!(c.upstream_port, 80);
    assert_eq!(c.tapes, "tapes");
    assert_eq!(c.bind, "127.0.0.1");
    assert!(!c.replay_only);
    assert!(!c.listen_tls);
    assert_eq!(c.tls_port, 5443);
    assert_eq!(c.cert_file, None);
    assert_eq!(c.private_key_file, None);
}

#[test]
fn command_line_goes_before_file_for_port_upstream_tapes_bind_and_tls_files() {
    let mut a = args();
    a.port = Some(1);
    a.upstream = Some("cli.example".to_string());
    a.tapes = Some("cli-tapes".to_string());
    a.bind = Some("0.0.0.0".to_string());
    a.cert_file = Some("cli.crt".to_string());
    a.private_key_file = Some("cli.key".to_string());
    let mut t = toml();
    t.port = Some(2);
    t.upstream = Some("file.example".to_string());
    t.tapes = Some("file-tapes".to_string());
    t.bind = Some("10.0.0.1".to_string());
    t.cert_file = Some("file.crt".to_string());
    t.private_key_file = Some("file.key".to_string());
    let c = get_config(a, t, IP).unwrap();
    assert_eq!(c.port, 1);
    assert_eq!(c.upstream, "cli.example");
    assert_eq!(c.tapes, "cli-tapes");
    assert_eq!(c.bind, "0.0.0.0");
    assert_eq!(c.cert_file.as_deref(), Some("cli.crt"));
    assert_eq!(c.private_key_file.as_deref(), Some("cli.key"));
}

#[test]
fn file_fills_in_what_the_command_line_leaves_out() {
    let mut t = toml();
    t.port = Some(2);
    t.upstream = Some("file.example".to_string());
    t.tapes = Some("file-tapes".to_string());
    t.bind = Some("10.0.0.1".to_string());
    t.cert_file = Some("file.crt".to_string());
    t.private_key_file = Some("file.key".to_string());
    let c = get_config(args(), t, IP).unwrap();
    assert_eq!(c.port, 2);
    assert_eq!(c.upstream, "file.example");
    assert_eq!(c.tapes, "file-tapes");
    assert_eq!(c.bind, "10.0.0.1");
    assert_eq!(c.cert_file.as_deref(), Some("file.crt"));
    assert_eq!(c.private_key_file.as_deref(), Some("file.key"));
}

#[test]
fn file_goes_before_command_line_for_flags_and_other_ports() {
    let mut a = args();
    a.upstream = Some("u".to_string());
    a.replay_only = true;
    a.listen_tls = true;
    a.upstream_tls = true;
    a.upstream_port = 8443;
    a.tls_port = 1;
    let mut t = toml();
    t.replay_only = Some(false);
    t.listen_tls = Some(false);
    t.upstream_tls = Some(false);
    t.upstream_port = Some(8080);
    t.tls_port = Some(2);
    let c = get_config(a, t, IP).unwrap();
    assert!(!c.replay_only);
    assert!(!c.listen_tls);
    assert!(!c.upstream_tls);
    assert_eq!(c.upstream_port, 8080);
    assert_eq!(c.tls_port, 2);
}

#[test]
fn command_line_flags_hold_where_the_file_is_silent() {
    let mut a = args();
    a.upstream = Some("u".to_string());
    a.replay_only = true;
    a.upstream_tls = true;
    a.upstream_port = 8443;
    a.tls_port = 9;
    let c = get_config(a, toml(), IP).unwrap();
    assert!(c.replay_only);
    assert!(c.upstream_tls);
    assert_eq!(c.upstream_port, 8443);
    assert_eq!(c.tls_port, 9);
}

#[test]
fn tls_upstream_on_port_80_moves_to_443() {
    let mut a = args();
    a.upstream = Some("u".to_string());
    a.upstream_tls = true;
    let c = get_config(a, toml(), IP).unwrap();
    assert_eq!(c.upstream_port, 443);

    let mut a = args();
    a.upstream = Some("u".to_string());
    let mut t = toml();
    t.upstream_tls = Some(true);
    t.upstream_port = Some(80);
    assert_eq!(get_config(a, t, IP).unwrap().upstream_port, 443);

    let mut a = args();
    a.upstream = Some("u".to_string());
    a.upstream_tls = true;
    let mut t = toml();
    t.upstream_tls = Some(false);
    assert_eq!(get_config(a, t, IP).unwrap().upstream_port, 80);
}

#[test]
fn missing_upstream_is_an_error() {
    assert!(!validate(&args(), &toml()));
    assert_eq!(get_config(args(), toml(), IP).unwrap_err(), ConfigError::MissingUpstream);
    let mut a = args();
    a.listen_tls = true;
    assert_eq!(get_config(a, toml(), IP).unwrap_err(), ConfigError::MissingUpstream);
}

#[test]
fn validate_accepts_an_upstream_from_either_side() {
    let mut a = args();
    a.upstream = Some("u".to_string());
    assert!(validate(&a, &toml()));
    let mut t = toml();
    t.upstream = Some("u".to_string());
    assert!(validate(&args(), &t));
    assert!(validate(&a, &t));
}

#[test]
fn tls_listening_needs_a_certificate_file() {
    let mut a = args();
    a.upstream = Some("u".to_string());
    a.listen_tls = true;
    a.private_key_file = Some("k".to_string());
    assert_eq!(get_config(a, toml(), IP).unwrap_err(), ConfigError::MissingCertFile);
    let mut a = args();
    a.upstream = Some("u".to_string());
    a.listen_tls = true;
    assert_eq!(get_config(a, toml(), IP).unwrap_err(), ConfigError::MissingCertFile);
}

#[test]
fn tls_listening_needs_a_private_key_file() {
    let mut a = args();
    a.upstream = Some("u".to_string());
    let mut t = toml();
    t.listen_tls = Some(true);
    t.cert_file = Some("c".to_string());
    assert_eq!(get_config(a, t, IP).unwrap_err(), ConfigError::MissingPrivateKeyFile);
}

#[test]
fn tls_listening_with_both_files_is_accepted() {
    let mut a = args();
    a.upstream = Some("u".to_string());
    a.listen_tls = true;
    a.cert_file = Some("c".to_string());
    let mut t = toml();
    t.private_key_file = Some("k".to_string());
    let c = get_config(a, t, IpAddress::V6([0; 16])).unwrap();
    assert!(c.listen_tls);
    assert_eq!(c.cert_file.as_deref(), Some("c"));
    assert_eq!(c.private_key_file.as_deref(), Some("k"));
    assert!(matches!(c.upstream_ip, IpAddress::V6(_)));
}

#[test]
fn tls_files_are_not_needed_without_tls_listening() {
    let mut a = args();
    a.upstream = Some("u".to_string());
    a.listen_tls = true;
    let mut t = toml();
    t.listen_tls = Some(false);
    assert!(get_config(a, t, IP).is_ok());
}
