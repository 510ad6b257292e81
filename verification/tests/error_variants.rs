use maintenance_engine::error::{ErrorClassifier, Severity};
use maintenance_engine::Error;

/// The error a tensor check reports for `value` in `dimension`.
fn tensor_error(dimension: usize, value: f64) -> Error {
    Error::TensorValidation { dimension, value_bits: value.to_bits(), value_text: value.to_string() }
}

fn io_error(kind: &str, message: &str) -> Error {
    Error::Io { kind: kind.to_string(), message: message.to_string() }
}

#[test]
fn test_display_config() {
    let err = Error::Config("invalid port".into());
    assert_eq!(err.to_display_string(), "Configuration error: invalid port");
}

#[test]
fn test_display_database() {
    let err = Error::Database("connection refused".into());
    assert_eq!(err.to_display_string(), "Database error: connection refused");
}

#[test]
fn test_display_network() {
    let err = Error::Network { target: "synthex".into(), message: "timeout".into() };
    assert_eq!(err.to_display_string(), "Network error to synthex: timeout");
}

#[test]
fn test_display_circuit_open() {
    let err = Error::CircuitOpen { service_id: "synthex".into(), retry_after_ms: 30000 };
    assert!(err.to_display_string().contains("Circuit breaker open"));
    assert!(err.to_display_string().contains("synthex"));
    assert!(err.to_display_string().contains("30000"));
}

#[test]
fn test_display_consensus_quorum() {
    let err = Error::ConsensusQuorum { required: 27, received: 20 };
    assert_eq!(err.to_display_string(), "Consensus quorum not reached: 20/27");
}

#[test]
fn test_display_view_change() {
    let err = Error::ViewChange { current_view: 1, new_view: 2 };
    assert_eq!(err.to_display_string(), "View change required: 1 -> 2");
}

#[test]
fn test_display_pathway_not_found() {
    let err = Error::PathwayNotFound { source: "M01".into(), target: "M02".into() };
    assert_eq!(err.to_display_string(), "Hebbian pathway not found: M01 -> M02");
}

#[test]
fn test_display_tensor_validation() {
    let err = tensor_error(6, 1.5);
    assert!(err.to_display_string().contains("dimension 6"));
    assert!(err.to_display_string().contains("1.5"));
}

#[test]
fn test_display_service_not_found() {
    let err = Error::ServiceNotFound("unknown-svc".into());
    assert_eq!(err.to_display_string(), "Service not found: unknown-svc");
}

#[test]
fn test_display_health_check_failed() {
    let err = Error::HealthCheckFailed { service_id: "nais".into(), reason: "port unreachable".into() };
    assert!(err.to_display_string().contains("nais"));
    assert!(err.to_display_string().contains("port unreachable"));
}

#[test]
fn test_display_escalation_required() {
    let err = Error::EscalationRequired {
        from_tier: "L0".into(),
        to_tier: "L2".into(),
        reason: "low confidence".into(),
    };
    assert!(err.to_display_string().contains("L0"));
    assert!(err.to_display_string().contains("L2"));
    assert!(err.to_display_string().contains("low confidence"));
}

#[test]
fn test_display_timeout() {
    let err = Error::Timeout { operation: "health_check".into(), timeout_ms: 5000 };
    assert_eq!(err.to_display_string(), "Operation 'health_check' timed out after 5000ms");
}

#[test]
fn test_display_pipeline() {
    let err = Error::Pipeline("stage 3 failed".into());
    assert_eq!(err.to_display_string(), "Pipeline error: stage 3 failed");
}

#[test]
fn test_display_validation() {
    let err = Error::Validation("port must be > 0".into());
    assert_eq!(err.to_display_string(), "Validation error: port must be > 0");
}

#[test]
fn test_display_io() {
    let err = io_error("NotFound", "file missing");
    assert!(err.to_display_string().contains("IO error"));
    assert!(err.to_display_string().contains("file missing"));
}

#[test]
fn test_display_other() {
    let err = Error::Other("something unexpected".into());
    assert_eq!(err.to_display_string(), "something unexpected");
}

#[test]
fn test_from_string() {
    let err: Error = "generic failure".to_string().into();
    assert_eq!(err, Error::Other("generic failure".into()));
}

#[test]
fn test_classifier_network_is_retryable() {
    let err = Error::Network { target: "svc".into(), message: "refused".into() };
    assert!(err.is_retryable());
    assert!(err.is_transient());
}

#[test]
fn test_classifier_circuit_open_is_retryable() {
    let err = Error::CircuitOpen { service_id: "svc".into(), retry_after_ms: 1000 };
    assert!(err.is_retryable());
    assert!(err.is_transient());
}

#[test]
fn test_classifier_timeout_is_retryable() {
    let err = Error::Timeout { operation: "query".into(), timeout_ms: 5000 };
    assert!(err.is_retryable());
    assert!(err.is_transient());
}

#[test]
fn test_classifier_config_not_retryable() {
    let err = Error::Config("bad".into());
    assert!(!err.is_retryable());
    assert!(!err.is_transient());
}

#[test]
fn test_classifier_validation_not_retryable() {
    let err = Error::Validation("invalid".into());
    assert!(!err.is_retryable());
    assert!(!err.is_transient());
}

#[test]
fn test_classifier_io_retryable_for_connection_refused() {
    let err = io_error("ConnectionRefused", "refused");
    assert!(err.is_retryable());
}

#[test]
fn test_classifier_io_not_retryable_for_not_found() {
    let err = io_error("NotFound", "missing");
    assert!(!err.is_retryable());
}

#[test]
fn test_classifier_database_locked_is_retryable() {
    let err = Error::Database("database is locked".into());
    assert!(err.is_retryable());
}

#[test]
fn test_classifier_database_generic_not_retryable() {
    let err = Error::Database("constraint violation".into());
    assert!(!err.is_retryable());
}

#[test]
fn test_severity_critical() {
    assert_eq!(Error::ViewChange { current_view: 1, new_view: 2 }.severity(), Severity::Critical);
    assert_eq!(
        Error::EscalationRequired {
            from_tier: "L0".into(),
            to_tier: "L3".into(),
            reason: "critical".into()
        }
        .severity(),
        Severity::Critical
    );
}

#[test]
fn test_severity_high() {
    assert_eq!(
        Error::HealthCheckFailed { service_id: "svc".into(), reason: "down".into() }.severity(),
        Severity::High
    );
    assert_eq!(Error::Pipeline("fail".into()).severity(), Severity::High);
    assert_eq!(Error::ConsensusQuorum { required: 27, received: 10 }.severity(), Severity::High);
}

#[test]
fn test_severity_medium() {
    assert_eq!(Error::Network { target: "x".into(), message: "y".into() }.severity(), Severity::Medium);
    assert_eq!(Error::Timeout { operation: "op".into(), timeout_ms: 100 }.severity(), Severity::Medium);
    assert_eq!(Error::Database("err".into()).severity(), Severity::Medium);
}

#[test]
fn test_severity_low() {
    assert_eq!(Error::Config("err".into()).severity(), Severity::Low);
    assert_eq!(Error::Validation("err".into()).severity(), Severity::Low);
    assert_eq!(Error::ServiceNotFound("x".into()).severity(), Severity::Low);
    assert_eq!(Error::Other("err".into()).severity(), Severity::Low);
}

#[test]
fn test_clone_string_variant() {
    let err = Error::Config("test".into());
    let cloned = err.clone();
    assert_eq!(err, cloned);
}

#[test]
fn test_clone_struct_variant() {
    let err = Error::Network { target: "svc".into(), message: "fail".into() };
    let cloned = err.clone();
    assert_eq!(err, cloned);
}

#[test]
fn test_clone_io_variant() {
    let err = io_error("NotFound", "missing");
    let cloned = err.clone();
    assert_eq!(err, cloned);
}

#[test]
fn test_clone_numeric_variant() {
    let err = Error::ConsensusQuorum { required: 27, received: 15 };
    let cloned = err.clone();
    assert_eq!(err, cloned);
}

#[test]
fn test_eq_same_variant_same_data() {
    assert_eq!(Error::Config("x".into()), Error::Config("x".into()));
}

#[test]
fn test_neq_same_variant_different_data() {
    assert_ne!(Error::Config("x".into()), Error::Config("y".into()));
}

#[test]
fn test_neq_different_variants() {
    assert_ne!(Error::Config("x".into()), Error::Database("x".into()));
}

#[test]
fn test_eq_tensor_nan() {
    let err1 = tensor_error(0, f64::NAN);
    let err2 = tensor_error(0, f64::NAN);
    assert_eq!(err1, err2);
}

#[test]
fn test_eq_circuit_open() {
    let err1 = Error::CircuitOpen { service_id: "svc".into(), retry_after_ms: 5000 };
    let err2 = Error::CircuitOpen { service_id: "svc".into(), retry_after_ms: 5000 };
    assert_eq!(err1, err2);
}

#[test]
fn test_match_config() {
    let err = Error::Config("bad port".into());
    assert!(matches!(err, Error::Config(ref msg) if msg.contains("port")));
}

#[test]
fn test_match_network_target() {
    let err = Error::Network { target: "synthex".into(), message: "refused".into() };
    assert!(matches!(err, Error::Network { ref target, .. } if target == "synthex"));
}

#[test]
fn test_match_timeout_operation() {
    let err = Error::Timeout { operation: "query".into(), timeout_ms: 1000 };
    assert!(matches!(err, Error::Timeout { timeout_ms, .. } if timeout_ms == 1000));
}

#[test]
fn test_match_escalation_tiers() {
    let err = Error::EscalationRequired {
        from_tier: "L1".into(),
        to_tier: "L3".into(),
        reason: "critical".into(),
    };
    assert!(matches!(err, Error::EscalationRequired { ref from_tier, ref to_tier, .. }
        if from_tier == "L1" && to_tier == "L3"));
}

#[test]
fn test_match_quorum_values() {
    let err = Error::ConsensusQuorum { required: 27, received: 20 };
    assert!(matches!(err, Error::ConsensusQuorum { required: 27, received: 20 }));
}

#[test]
fn test_empty_string_config() {
    let err = Error::Config(String::new());
    assert_eq!(err.to_display_string(), "Configuration error: ");
}

#[test]
fn test_empty_string_other() {
    let err = Error::Other(String::new());
    assert_eq!(err.to_display_string(), "");
}

#[test]
fn test_max_u64_retry_after() {
    let err = Error::CircuitOpen { service_id: "svc".into(), retry_after_ms: u64::MAX };
    assert!(err.to_display_string().contains(&u64::MAX.to_string()));
}

#[test]
fn test_max_u32_quorum() {
    let err = Error::ConsensusQuorum { required: u32::MAX, received: 0 };
    assert!(err.to_display_string().contains(&u32::MAX.to_string()));
}

#[test]
fn test_zero_dimension_tensor() {
    let err = tensor_error(0, 0.0);
    assert!(err.to_display_string().contains("dimension 0"));
}

#[test]
fn test_max_dimension_tensor() {
    let err = tensor_error(11, -1.0);
    assert!(err.to_display_string().contains("dimension 11"));
}

#[test]
fn test_infinity_tensor_value() {
    let err = tensor_error(6, f64::INFINITY);
    assert!(err.to_display_string().contains("inf"));
}

#[test]
fn test_nan_tensor_value() {
    let err = tensor_error(6, f64::NAN);
    assert!(err.to_display_string().contains("NaN"));
}

#[test]
fn test_long_string_error() {
    let long_msg = "x".repeat(10_000);
    let err = Error::Config(long_msg.clone());
    assert!(err.to_display_string().contains(&long_msg));
}

#[test]
fn test_unicode_string_error() {
    let err = Error::Other("Ошибка конфигурации 🔥".into());
    assert_eq!(err.to_display_string(), "Ошибка конфигурации 🔥");
}

#[test]
fn test_consensus_quorum_is_transient() {
    let err = Error::ConsensusQuorum { required: 27, received: 20 };
    assert!(err.is_transient());
    assert!(err.is_retryable());
}

#[test]
fn test_errors_in_collection() {
    let errors: Vec<Error> =
        vec![Error::Config("a".into()), Error::Database("b".into()), Error::Other("c".into())];
    assert_eq!(errors.len(), 3);
    let cloned = errors.clone();
    assert_eq!(errors, cloned);
}

#[test]
fn test_error_code_ranges() {
    assert_eq!(Error::Config("x".into()).error_code(), 1000);
    assert_eq!(Error::Database("x".into()).error_code(), 1100);
    assert_eq!(Error::Network { target: "x".into(), message: "y".into() }.error_code(), 1200);
    assert_eq!(Error::ConsensusQuorum { required: 27, received: 10 }.error_code(), 1300);
    assert_eq!(Error::PathwayNotFound { source: "a".into(), target: "b".into() }.error_code(), 1400);
    assert_eq!(Error::Validation("x".into()).error_code(), 1500);
}

#[test]
fn test_error_code_io_pipeline_other() {
    let io_err = io_error("NotFound", "x");
    assert_eq!(io_err.error_code(), 1600);
    assert_eq!(Error::Pipeline("x".into()).error_code(), 1700);
    assert_eq!(Error::Other("x".into()).error_code(), 1900);
}

#[test]
fn test_error_code_service_related() {
    assert_eq!(Error::ServiceNotFound("x".into()).error_code(), 1800);
    assert_eq!(
        Error::HealthCheckFailed { service_id: "x".into(), reason: "y".into() }.error_code(),
        1801
    );
    assert_eq!(
        Error::EscalationRequired {
            from_tier: "L0".into(),
            to_tier: "L3".into(),
            reason: "critical".into()
        }
        .error_code(),
        1802
    );
}

#[test]
fn test_error_category_mapping() {
    assert_eq!(Error::Config("x".into()).error_category(), "config");
    assert_eq!(Error::Database("x".into()).error_category(), "database");
    assert_eq!(Error::Network { target: "x".into(), message: "y".into() }.error_category(), "network");
    assert_eq!(Error::ConsensusQuorum { required: 27, received: 10 }.error_category(), "consensus");
    assert_eq!(
        Error::PathwayNotFound { source: "a".into(), target: "b".into() }.error_category(),
        "learning"
    );
    assert_eq!(Error::Validation("x".into()).error_category(), "validation");
}

#[test]
fn test_error_category_other_group() {
    assert_eq!(Error::Other("x".into()).error_category(), "other");
    assert_eq!(Error::ServiceNotFound("x".into()).error_category(), "other");
    assert_eq!(Error::Pipeline("x".into()).error_category(), "other");
}
