use maintenance_engine::config::{
    config_changes, is_valid_log_level, join_texts, parse_toml_settings, reload_step, split_messages,
    validation_report, Config, ConfigBuilder, EnvOverrides, TomlField, ValidationError,
    ValidationResult, ValidationWarning,
};
use maintenance_engine::error::Error;

fn validation_text(c: &Config) -> String {
    match c.validate() {
        Err(e) => e.to_display_string(),
        Ok(()) => String::new(),
    }
}

#[test]
fn test_config_defaults() {
    let config = Config::defaults();
    assert_eq!(config.host, "0.0.0.0");
    assert_eq!(config.port, 8080);
    assert_eq!(config.grpc_port, 8081);
    assert_eq!(config.ws_port, 8082);
    assert_eq!(config.database_path, "data/maintenance.db");
    assert_eq!(config.log_level, "info");
}

#[test]
fn test_config_validation_success() {
    let config = Config::defaults();
    assert!(config.validate().is_ok());
}

#[test]
fn test_config_validation_empty_host() {
    let config = Config { host: String::new(), ..Config::defaults() };
    let result = config.validate();
    assert!(result.is_err());
    assert!(validation_text(&config).contains("host cannot be empty"));
}

#[test]
fn test_config_validation_zero_port() {
    let config = Config { port: 0, ..Config::defaults() };
    assert!(config.validate().is_err());
    assert!(validation_text(&config).contains("port cannot be zero"));
}

#[test]
fn test_config_validation_port_conflict() {
    let config = Config { port: 8080, grpc_port: 8080, ..Config::defaults() };
    assert!(config.validate().is_err());
    assert!(validation_text(&config).contains("cannot use the same port"));
}

#[test]
fn test_config_validation_invalid_log_level() {
    let config = Config { log_level: "invalid".to_string(), ..Config::defaults() };
    assert!(config.validate().is_err());
    assert!(validation_text(&config).contains("invalid log_level"));
}

#[test]
fn config_test_builder_defaults() -> maintenance_engine::Result<()> {
    let config = ConfigBuilder::new().skip_files().skip_env().build()?;
    assert_eq!(config.port, 8080);
    Ok(())
}

#[test]
fn test_builder_custom_values() -> maintenance_engine::Result<()> {
    let config = ConfigBuilder::new()
        .skip_files()
        .skip_env()
        .host("127.0.0.1")
        .port(9000)
        .grpc_port(9001)
        .ws_port(9002)
        .database_path("/custom/path.db")
        .log_level("debug")
        .build()?;
    assert_eq!(config.host, "127.0.0.1");
    assert_eq!(config.port, 9000);
    assert_eq!(config.grpc_port, 9001);
    assert_eq!(config.ws_port, 9002);
    assert_eq!(config.database_path, "/custom/path.db");
    assert_eq!(config.log_level, "debug");
    Ok(())
}

#[test]
fn builder_env_override() -> maintenance_engine::Result<()> {
    let env = EnvOverrides {
        host: Some("env-host-override".to_string()),
        port: Some("7777".to_string()),
        ..EnvOverrides::none()
    };
    let config = ConfigBuilder::new()
        .skip_files()
        .host("original-host")
        .port(8080)
        .with_env(env)
        .build()?;
    assert_eq!(config.host, "env-host-override");
    assert_eq!(config.port, 7777);
    Ok(())
}

#[test]
fn builder_env_unparseable_port_is_ignored() -> maintenance_engine::Result<()> {
    let env = EnvOverrides { port: Some("70000".to_string()), ..EnvOverrides::none() };
    let config = ConfigBuilder::new().skip_files().with_env(env).build()?;
    assert_eq!(config.port, 8080);
    Ok(())
}

#[test]
fn builder_skip_env_ignores_overrides() -> maintenance_engine::Result<()> {
    let env = EnvOverrides {
        host: Some("should-be-ignored-by-skip-env".to_string()),
        ..EnvOverrides::none()
    };
    let config = ConfigBuilder::new().skip_files().skip_env().with_env(env).build()?;
    assert_ne!(config.host, "should-be-ignored-by-skip-env");
    Ok(())
}

#[test]
fn test_validation_result() {
    let success = ValidationResult::success();
    assert!(success.valid);
    assert!(success.errors.is_empty());

    let failure = ValidationResult::failure(vec![ValidationError {
        key: "port".to_string(),
        code: "E2003".to_string(),
        message: "port cannot be zero".to_string(),
    }]);
    assert!(!failure.valid);
    assert_eq!(failure.errors.len(), 1);
}

#[test]
fn test_validate_empty_host() {
    let config = Config { host: String::new(), ..Config::defaults() };
    assert!(config.validate().is_err());
    assert!(validation_text(&config).contains("host cannot be empty"));
}

#[test]
fn test_validate_port_zero() {
    let config = Config { port: 0, ..Config::defaults() };
    assert!(config.validate().is_err());
    assert!(validation_text(&config).contains("port cannot be zero"));
}

#[test]
fn test_validate_grpc_port_zero() {
    let config = Config { grpc_port: 0, ..Config::defaults() };
    assert!(config.validate().is_err());
    assert!(validation_text(&config).contains("grpc_port cannot be zero"));
}

#[test]
fn test_validate_ws_port_zero() {
    let config = Config { ws_port: 0, ..Config::defaults() };
    assert!(config.validate().is_err());
    assert!(validation_text(&config).contains("ws_port cannot be zero"));
}

#[test]
fn test_validate_all_ports_zero_reports_all() {
    let config = Config { port: 0, grpc_port: 0, ws_port: 0, ..Config::defaults() };
    match config.validate() {
        Err(Error::Validation(msg)) => {
            assert_eq!(msg, "port cannot be zero; grpc_port cannot be zero; ws_port cannot be zero");
        }
        _ => panic!("expected a validation error"),
    }
}

#[test]
fn test_validate_conflicting_ports_grpc_ws() {
    let config = Config { grpc_port: 9999, ws_port: 9999, ..Config::defaults() };
    assert!(config.validate().is_err());
    assert!(validation_text(&config).contains("cannot use the same port"));
    assert!(validation_text(&config).contains("grpc_port and ws_port cannot use the same port 9999"));
}

#[test]
fn test_validate_empty_database_path() {
    let config = Config { database_path: String::new(), ..Config::defaults() };
    assert!(config.validate().is_err());
    assert!(validation_text(&config).contains("database_path cannot be empty"));
}

#[test]
fn test_validate_multiple_simultaneous_errors() {
    let config = Config {
        host: String::new(),
        database_path: String::new(),
        log_level: "bogus".to_string(),
        ..Config::defaults()
    };
    match config.validate() {
        Err(Error::Validation(msg)) => {
            assert!(msg.contains("host cannot be empty"), "missing host error in: {msg}");
            assert!(msg.contains("database_path cannot be empty"), "missing db error in: {msg}");
            assert!(msg.contains("invalid log_level"), "missing log_level error in: {msg}");
        }
        _ => panic!("expected a validation error"),
    }
}

#[test]
fn validation_message_exact_text() {
    let config = Config { log_level: "Loud".to_string(), port: 8081, ..Config::defaults() };
    match config.validate() {
        Err(Error::Validation(msg)) => assert_eq!(
            msg,
            "port and grpc_port cannot use the same port 8081; invalid log_level 'Loud', must be one of: trace, debug, info, warn, error"
        ),
        _ => panic!("expected a validation error"),
    }
    let upper = Config { log_level: "WARN".to_string(), ..Config::defaults() };
    assert!(upper.validate().is_ok());
}

#[test]
fn test_builder_chain_all_methods() -> maintenance_engine::Result<()> {
    let config = ConfigBuilder::new()
        .skip_files()
        .skip_env()
        .host("10.0.0.1")
        .port(4000)
        .grpc_port(4001)
        .ws_port(4002)
        .database_path("custom/db.sqlite")
        .log_level("warn")
        .build()?;
    assert_eq!(config.host, "10.0.0.1");
    assert_eq!(config.port, 4000);
    assert_eq!(config.grpc_port, 4001);
    assert_eq!(config.ws_port, 4002);
    assert_eq!(config.database_path, "custom/db.sqlite");
    assert_eq!(config.log_level, "warn");
    Ok(())
}

#[test]
fn test_builder_partial_build_inherits_defaults() -> maintenance_engine::Result<()> {
    let config = ConfigBuilder::new().skip_files().skip_env().host("192.168.0.1").build()?;
    assert_eq!(config.host, "192.168.0.1");
    assert_eq!(config.port, 8080);
    assert_eq!(config.grpc_port, 8081);
    assert_eq!(config.ws_port, 8082);
    Ok(())
}

#[test]
fn test_builder_default_values_match_config_defaults() -> maintenance_engine::Result<()> {
    let from_builder = ConfigBuilder::new().skip_files().skip_env().build()?;
    let from_defaults = Config::defaults();
    assert_eq!(from_builder, from_defaults);
    Ok(())
}

#[test]
fn test_builder_default_impl() -> maintenance_engine::Result<()> {
    let a = ConfigBuilder::new().skip_files().skip_env().build()?;
    let b = ConfigBuilder::default().skip_files().skip_env().build()?;
    assert_eq!(a, b);
    Ok(())
}

#[test]
fn test_error_nonexistent_base_path_succeeds_with_defaults() -> maintenance_engine::Result<()> {
    // No configuration file was found under this base path, so none is loaded.
    let config = ConfigBuilder::new()
        .with_base_path(std::path::PathBuf::from("/tmp/certainly-does-not-exist-me-test-12345"))
        .skip_env()
        .build()?;
    assert_eq!(config.port, 8080);
    Ok(())
}

#[test]
fn builder_flags_are_reported() {
    let b = ConfigBuilder::new();
    assert!(!b.skips_files());
    assert!(!b.skips_env());
    assert!(b.base_path().is_none());
    let b = b.skip_files().skip_env().with_base_path(std::path::PathBuf::from("/etc"));
    assert!(b.skips_files());
    assert!(b.skips_env());
    assert_eq!(b.base_path(), Some(&std::path::PathBuf::from("/etc")));
}

// ==== configuration files ====

#[test]
fn toml_file_layers_over_values() -> maintenance_engine::Result<()> {
    let mut b = ConfigBuilder::new().skip_env();
    b.load_toml_file(
        "config/default.toml",
        "[server]\nhost = \"10.1.1.1\"\nport = 9100\ngrpc_port = 9101\nwebsocket_port = 9102\n\n[database]\nbase_path = \"/var/lib/me\"\n\n[logging]\nlevel = \"debug\"\n",
    )?;
    let config = b.build()?;
    assert_eq!(config.host, "10.1.1.1");
    assert_eq!(config.port, 9100);
    assert_eq!(config.grpc_port, 9101);
    assert_eq!(config.ws_port, 9102);
    assert_eq!(config.database_path, "/var/lib/me/maintenance.db");
    assert_eq!(config.log_level, "debug");
    Ok(())
}

#[test]
fn local_toml_overrides_default() -> maintenance_engine::Result<()> {
    let mut b = ConfigBuilder::new().skip_env();
    b.load_toml_file("default.toml", "[server]\nport = 9000\n[logging]\nlevel = \"info\"\n")?;
    b.load_toml_file("local.toml", "[logging]\nlevel = \"trace\"\n")?;
    let config = b.build()?;
    assert_eq!(config.host, "0.0.0.0");
    assert_eq!(config.port, 9000);
    assert_eq!(config.log_level, "trace");
    Ok(())
}

#[test]
fn toml_ws_port_key_used_when_websocket_port_absent() -> maintenance_engine::Result<()> {
    let mut b = ConfigBuilder::new().skip_env();
    b.load_toml_file("f.toml", "[server]\nws_port = 9300\n")?;
    assert_eq!(b.build()?.ws_port, 9300);
    Ok(())
}

#[test]
fn toml_out_of_range_port_is_an_error() {
    let mut b = ConfigBuilder::new().skip_env();
    let r = b.load_toml_file("f.toml", "[server]\nhost = \"h\"\nport = 70000\n");
    assert_eq!(r, Err(Error::Config("invalid port value: 70000".to_string())));
    let r = b.load_toml_file("f.toml", "[server]\ngrpc_port = -1\n");
    assert_eq!(r, Err(Error::Config("invalid grpc_port value: -1".to_string())));
    // A failed load leaves the values as they were.
    let config = b.build().expect("defaults are valid");
    assert_eq!(config.host, "0.0.0.0");
}

#[test]
fn toml_syntax_error_names_the_file() {
    let mut b = ConfigBuilder::new();
    match b.load_toml_file("config/local.toml", "[server\nport = 1") {
        Err(Error::Config(m)) => assert!(m.starts_with("failed to parse TOML 'config/local.toml': ")),
        other => panic!("unexpected {other:?}"),
    }
}

#[test]
fn toml_settings_kinds_of_values() {
    let t = parse_toml_settings("[server]\nhost = 5\nport = \"x\"\n").expect("valid TOML");
    assert_eq!(t.server_host, TomlField::Int(5));
    assert_eq!(t.server_port, TomlField::Text("x".to_string()));
    assert_eq!(t.server_grpc_port, TomlField::Absent);
    let t = parse_toml_settings("server = 3\n[logging]\nlevel = true\n").expect("valid TOML");
    assert_eq!(t.server_host, TomlField::Absent);
    assert_eq!(t.logging_level, TomlField::Other);
}

#[test]
fn toml_non_string_host_leaves_host() -> maintenance_engine::Result<()> {
    let mut b = ConfigBuilder::new().skip_env();
    b.load_toml_file("f.toml", "[server]\nhost = 5\nport = \"x\"\n")?;
    let config = b.build()?;
    assert_eq!(config.host, "0.0.0.0");
    assert_eq!(config.port, 8080);
    Ok(())
}

// ==== detailed report, change report ====

#[test]
fn validation_report_for_valid_config() {
    let r = validation_report(&Config::defaults());
    assert!(r.valid);
    assert!(r.errors.is_empty());
    assert!(r.warnings.is_empty());
}

#[test]
fn validation_report_lists_each_violation() {
    let config = Config { port: 0, database_path: String::new(), ..Config::defaults() };
    let r = validation_report(&config);
    assert!(!r.valid);
    assert_eq!(r.errors.len(), 2);
    assert_eq!(r.errors[0].key, "port");
    assert_eq!(r.errors[0].code, "E2003");
    assert_eq!(r.errors[0].message, "port cannot be zero");
    assert_eq!(r.errors[1].key, "database_path");
    assert_eq!(r.errors[1].message, "database_path cannot be empty");
}

#[test]
fn validation_report_key_of_grpc_message_is_port() {
    let config = Config { grpc_port: 0, ..Config::defaults() };
    let r = validation_report(&config);
    assert_eq!(r.errors.len(), 1);
    assert_eq!(r.errors[0].key, "port");
}

#[test]
fn split_messages_pieces() {
    assert_eq!(split_messages("a; b;c; "), vec!["a".to_string(), "b;c".to_string(), "".to_string()]);
    assert_eq!(split_messages(""), vec!["".to_string()]);
    assert_eq!(split_messages("x"), vec!["x".to_string()]);
}

#[test]
fn join_texts_and_levels() {
    let parts = vec!["a".to_string(), "b".to_string()];
    assert_eq!(join_texts(&parts, ", "), "a, b");
    assert_eq!(join_texts(&Vec::new(), ", "), "");
    assert!(is_valid_log_level("Error"));
    assert!(!is_valid_log_level("warning"));
}

#[test]
fn config_changes_lists_changed_fields_in_order() {
    let a = Config::defaults();
    let b = Config { port: 9000, log_level: "debug".to_string(), ..Config::defaults() };
    let d = config_changes(&a, &b);
    assert_eq!(d.changed_keys, vec!["port".to_string(), "log_level".to_string()]);
    assert_eq!(
        d.previous,
        vec![("port".to_string(), "8080".to_string()), ("log_level".to_string(), "info".to_string())]
    );
    assert_eq!(
        d.new,
        vec![("port".to_string(), "9000".to_string()), ("log_level".to_string(), "debug".to_string())]
    );
}

#[test]
fn config_changes_against_itself_is_empty() {
    let a = Config::defaults();
    let d = config_changes(&a, &a.clone());
    assert!(d.changed_keys.is_empty());
    assert!(d.previous.is_empty());
    assert!(d.new.is_empty());
}

#[test]
fn validation_entries_hold_their_fields() {
    let err = ValidationError {
        key: "host".to_string(),
        code: "E002".to_string(),
        message: "host cannot be empty".to_string(),
    };
    assert_eq!(err.key, "host");
    let warning = ValidationWarning {
        key: "log_level".to_string(),
        code: "W001".to_string(),
        message: "trace level is verbose for production".to_string(),
    };
    assert!(warning.message.contains("verbose"));
}

#[test]
fn failed_reload_keeps_the_configuration() {
    let current = Config { port: 9100, ..Config::defaults() };
    let (next, outcome) = reload_step(&current, Err(Error::Config("unreadable".to_string())));
    assert_eq!(next, current);
    assert_eq!(outcome.unwrap_err(), Error::Config("unreadable".to_string()));
}

#[test]
fn successful_reload_replaces_the_configuration() {
    let current = Config::defaults();
    let loaded = Config { host: "10.0.0.1".to_string(), ..Config::defaults() };
    let (next, outcome) = reload_step(&current, Ok(loaded.clone()));
    assert_eq!(next, loaded);
    let d = outcome.unwrap();
    assert_eq!(d.changed_keys, vec!["host".to_string()]);
    assert_eq!(d.previous, vec![("host".to_string(), "0.0.0.0".to_string())]);
    assert_eq!(d.new, vec![("host".to_string(), "10.0.0.1".to_string())]);
}

#[test]
fn test_error_validation_fails_stops_build() {
    let result = ConfigBuilder::new().skip_files().skip_env().host(String::new()).build();
    assert!(result.is_err());
    if let Err(Error::Validation(msg)) = result {
        assert!(msg.contains("host cannot be empty"));
    }
}

#[test]
fn config_files_follow_the_layering_order() {
    let b = ConfigBuilder::new();
    assert_eq!(b.config_files(), vec!["config/default.toml", "config/local.toml"]);
    let b = b.skip_files();
    assert!(b.config_files().is_empty());
}

#[test]
fn base_path_holds_the_path_set_last() {
    let b = ConfigBuilder::new()
        .with_base_path(std::path::PathBuf::from("/srv/a"))
        .with_base_path(std::path::PathBuf::from("/srv/b"));
    assert_eq!(b.base_path(), Some(&std::path::PathBuf::from("/srv/b")));
}
