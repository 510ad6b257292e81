use maintenance_engine::config::{Config, ConfigBuilder, ValidationError, ValidationResult, ValidationWarning};
use maintenance_engine::error::{ErrorClassifier, Severity};
use maintenance_engine::logging::{generate_correlation_id, generate_short_correlation_id};
use maintenance_engine::{Error, Result};
use maintenance_engine::logging::{LogConfig, LogContext, LogFormat, LogLevel};
use maintenance_engine::metrics::Labels;
use maintenance_engine::nam::{AgentOrigin, HUMAN_AGENT_TAG, LAYER_ID, MODULE_COUNT};

#[test]
fn mod_test_severity_ordering() {
    assert!(Severity::Low < Severity::Medium);
    assert!(Severity::Medium < Severity::High);
    assert!(Severity::High < Severity::Critical);
    assert!(Severity::Low < Severity::Critical);
}

#[test]
fn test_config_feeds_into_log_config() {
    let config = Config::default();
    let log_config = LogConfig::default();
    assert_eq!(config.log_level, log_config.level);
}

#[test]
fn test_config_builder_chain() -> maintenance_engine::Result<()> {
    let config = ConfigBuilder::new()
        .host("127.0.0.1")
        .port(9090)
        .grpc_port(9091)
        .ws_port(9092)
        .skip_files()
        .skip_env()
        .build()?;
    assert_eq!(config.host, "127.0.0.1");
    assert_eq!(config.port, 9090);
    assert_eq!(config.grpc_port, 9091);
    assert_eq!(config.ws_port, 9092);
    Ok(())
}

#[test]
fn test_config_builder_default_matches_config_default() -> maintenance_engine::Result<()> {
    let from_builder = ConfigBuilder::new().skip_files().skip_env().build()?;
    let from_default = Config::default();
    assert_eq!(from_builder, from_default);
    Ok(())
}

#[test]
fn test_validation_result_success() {
    let result = ValidationResult::success();
    assert!(result.valid);
    assert!(result.errors.is_empty());
    assert!(result.warnings.is_empty());
}

#[test]
fn test_validation_result_failure() {
    let errors = vec![ValidationError {
        key: "port".to_string(),
        code: "E001".to_string(),
        message: "port cannot be zero".to_string(),
    }];
    let result = ValidationResult::failure(errors);
    assert!(!result.valid);
    assert_eq!(result.errors.len(), 1);
    assert_eq!(result.errors[0].key, "port");
    assert_eq!(result.errors[0].code, "E001");
    assert!(result.warnings.is_empty());
}

#[test]
fn test_validation_error_fields() {
    let err = ValidationError {
        key: "host".to_string(),
        code: "E002".to_string(),
        message: "host cannot be empty".to_string(),
    };
    assert_eq!(err.key, "host");
    assert_eq!(err.code, "E002");
    assert_eq!(err.message, "host cannot be empty");
}

#[test]
fn test_validation_warning_fields() {
    let warning = ValidationWarning {
        key: "log_level".to_string(),
        code: "W001".to_string(),
        message: "trace level is verbose for production".to_string(),
    };
    assert_eq!(warning.key, "log_level");
    assert_eq!(warning.code, "W001");
    assert!(warning.message.contains("verbose"));
}

#[test]
fn test_validation_result_with_warnings() {
    let mut result = ValidationResult::success();
    result.warnings.push(ValidationWarning {
        key: "ws_port".to_string(),
        code: "W002".to_string(),
        message: "ws_port is same as default".to_string(),
    });
    assert!(result.valid);
    assert_eq!(result.warnings.len(), 1);
}

#[test]
fn test_log_context_new_has_correlation_id() {
    let ctx = LogContext::new();
    assert!(!ctx.correlation_id.is_empty());
    assert!(ctx.service_id.is_none());
    assert!(ctx.layer.is_none());
    assert!(ctx.module.is_none());
}

#[test]
fn test_log_context_with_context_populates_fields() {
    let ctx = LogContext::with_context("maintenance-engine", "L1", "M03");
    assert!(!ctx.correlation_id.is_empty());
    assert_eq!(ctx.service_id.as_deref(), Some("maintenance-engine"));
    assert_eq!(ctx.layer.as_deref(), Some("L1"));
    assert_eq!(ctx.module.as_deref(), Some("M03"));
}

#[test]
fn mod_test_log_level_ordering() {
    assert!(LogLevel::Trace < LogLevel::Debug);
    assert!(LogLevel::Debug < LogLevel::Info);
    assert!(LogLevel::Info < LogLevel::Warn);
    assert!(LogLevel::Warn < LogLevel::Error);
}

#[test]
fn test_log_level_parse_all_variants() -> maintenance_engine::Result<()> {
    assert_eq!(LogLevel::parse_str("trace")?, LogLevel::Trace);
    assert_eq!(LogLevel::parse_str("debug")?, LogLevel::Debug);
    assert_eq!(LogLevel::parse_str("info")?, LogLevel::Info);
    assert_eq!(LogLevel::parse_str("warn")?, LogLevel::Warn);
    assert_eq!(LogLevel::parse_str("warning")?, LogLevel::Warn);
    assert_eq!(LogLevel::parse_str("error")?, LogLevel::Error);
    assert!(LogLevel::parse_str("invalid").is_err());
    Ok(())
}

#[test]
fn test_log_format_parse_and_display() -> maintenance_engine::Result<()> {
    assert_eq!(LogFormat::parse_str("json")?, LogFormat::Json);
    assert_eq!(LogFormat::parse_str("pretty")?, LogFormat::Pretty);
    assert_eq!(LogFormat::parse_str("compact")?, LogFormat::Compact);
    assert_eq!(LogFormat::Json.to_display_string(), "json");
    assert_eq!(LogFormat::Pretty.to_display_string(), "pretty");
    assert_eq!(LogFormat::Compact.to_display_string(), "compact");
    assert!(LogFormat::parse_str("xml").is_err());
    Ok(())
}

#[test]
fn test_log_config_default_values() {
    let config = LogConfig::default();
    assert_eq!(config.level, "info");
    assert_eq!(config.format, LogFormat::Pretty);
    assert!(config.include_timestamps);
    assert!(config.include_targets);
    assert!(!config.include_file_line);
    assert!(!config.include_thread_ids);
    assert!(!config.include_span_events);
}

#[test]
fn test_labels_builder_chain() {
    let labels = Labels::new()
        .service("maintenance-engine")
        .layer("L1")
        .module("M04")
        .tier("2")
        .status("healthy");
    let debug = format!("{labels:?}");
    assert!(debug.contains("maintenance-engine"));
    assert!(debug.contains("L1"));
}

#[test]
fn mod_test_labels_from_pairs() {
    let labels = Labels::from_pairs(&[("service", "me"), ("layer", "L1")]);
    let empty = Labels::from_pairs(&[]);
    assert_ne!(labels, empty);
}

#[test]
fn test_nam_constants_accessible() {
    assert_eq!(HUMAN_AGENT_TAG, "@0.A");
    assert_eq!(LAYER_ID, "L1");
    assert_eq!(MODULE_COUNT, 9);
}

#[test]
fn test_agent_origin_human_with_tag() {
    let origin = AgentOrigin::Human { tag: HUMAN_AGENT_TAG.to_string() };
    let display = origin.to_display_string();
    assert!(display.contains("@0.A"));
}

#[test]
fn test_agent_origin_uses_crate_agent_role() {
    let origin = AgentOrigin::agent("a-001", maintenance_engine::AgentRole::Validator);
    assert!(matches!(origin, AgentOrigin::Agent { .. }));
}

#[test]
fn test_error_classifier_config() {
    let err = Error::Config("bad key".to_string());
    assert!(!err.is_retryable());
    assert!(!err.is_transient());
    assert_eq!(err.severity(), Severity::Low);
}

#[test]
fn test_error_classifier_database() {
    let err = Error::Database("connection lost".to_string());
    assert!(!err.is_retryable());
    assert!(!err.is_transient());
    assert_eq!(err.severity(), Severity::Medium);
    let err_locked = Error::Database("database is locked".to_string());
    assert!(err_locked.is_retryable());
}

#[test]
fn test_error_classifier_network_retryable() {
    let err = Error::Network { target: "synthex".to_string(), message: "timeout".to_string() };
    assert!(err.is_retryable());
    assert!(err.is_transient());
    assert_eq!(err.severity(), Severity::Medium);
}

#[test]
fn test_error_classifier_circuit_open() {
    let err = Error::CircuitOpen { service_id: "san-k7".to_string(), retry_after_ms: 5000 };
    assert!(err.is_retryable());
    assert!(err.is_transient());
    assert_eq!(err.severity(), Severity::Medium);
}

#[test]
fn test_error_classifier_consensus_quorum() {
    let err = Error::ConsensusQuorum { required: 27, received: 15 };
    assert!(err.is_retryable());
    assert!(err.is_transient());
    assert_eq!(err.severity(), Severity::High);
}

#[test]
fn test_error_classifier_timeout() {
    let err = Error::Timeout { operation: "health_check".to_string(), timeout_ms: 3000 };
    assert!(err.is_retryable());
    assert!(err.is_transient());
    assert_eq!(err.severity(), Severity::Medium);
}

#[test]
fn test_error_classifier_validation() {
    let err = Error::Validation("invalid port".to_string());
    assert!(!err.is_retryable());
    assert!(!err.is_transient());
    assert_eq!(err.severity(), Severity::Low);
}

#[test]
fn test_config_clone_equality() {
    let config = Config::defaults();
    let cloned = config.clone();
    assert_eq!(config, cloned);
}

#[test]
fn test_validation_result_clone() {
    let errors = vec![ValidationError {
        key: "port".to_string(),
        code: "E001".to_string(),
        message: "invalid".to_string(),
    }];
    let result = ValidationResult::failure(errors);
    let cloned = result.clone();
    assert_eq!(cloned.valid, result.valid);
    assert_eq!(cloned.errors.len(), result.errors.len());
}

#[test]
fn test_correlation_id_uniqueness() {
    let ids: std::collections::HashSet<String> = (0..100).map(|_| generate_correlation_id()).collect();
    assert_eq!(ids.len(), 100, "All 100 correlation IDs must be unique");
}

#[test]
fn test_short_correlation_id_length() {
    let id = generate_short_correlation_id();
    assert!(!id.is_empty());
    assert!(id.len() <= 12, "Short ID should be compact");
}

#[test]
fn test_error_result_type_alias() {
    fn returns_ok() -> Result<u32> {
        Ok(42)
    }
    fn returns_err() -> Result<u32> {
        Err(Error::Other("fail".to_string()))
    }
    assert_eq!(returns_ok().ok(), Some(42));
    assert!(returns_err().is_err());
}

#[test]
fn test_error_from_string_conversion() {
    let err: Error = Error::from("something went wrong".to_string());
    let display = err.to_display_string();
    assert!(display.contains("something went wrong"));
}

#[test]
fn test_error_display_all_simple_variants() {
    let errors = vec![
        Error::Config("bad config".to_string()),
        Error::Database("db down".to_string()),
        Error::Pipeline("pipe broke".to_string()),
        Error::Validation("invalid".to_string()),
        Error::Other("unknown".to_string()),
        Error::ServiceNotFound("ghost".to_string()),
    ];
    for err in &errors {
        let display = err.to_display_string();
        assert!(!display.is_empty(), "Display should not be empty for {err:?}");
    }
}

#[test]
fn test_error_display_struct_variants() {
    let errors: Vec<Error> = vec![
        Error::Network { target: "synthex".to_string(), message: "refused".to_string() },
        Error::CircuitOpen { service_id: "san-k7".to_string(), retry_after_ms: 5000 },
        Error::ConsensusQuorum { required: 27, received: 15 },
        Error::ViewChange { current_view: 1, new_view: 2 },
        Error::PathwayNotFound { source: "M25".to_string(), target: "M26".to_string() },
        Error::TensorValidation {
            dimension: 3,
            value_bits: (-1.0f64).to_bits(),
            value_text: (-1.0f64).to_string(),
        },
        Error::HealthCheckFailed { service_id: "me".to_string(), reason: "timeout".to_string() },
        Error::EscalationRequired {
            from_tier: "L0".to_string(),
            to_tier: "L3".to_string(),
            reason: "critical".to_string(),
        },
        Error::Timeout { operation: "query".to_string(), timeout_ms: 3000 },
    ];
    for err in &errors {
        let display = err.to_display_string();
        assert!(!display.is_empty(), "Display should not be empty for {err:?}");
    }
}
