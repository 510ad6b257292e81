use maintenance_engine::error::{ErrorClassifier, Severity};
use maintenance_engine::Error;

#[test]
fn error_test_severity_ordering() {
    assert!(Severity::Low < Severity::Medium);
    assert!(Severity::Medium < Severity::High);
    assert!(Severity::High < Severity::Critical);
}

#[test]
fn test_severity_display() {
    assert_eq!(Severity::Low.to_display_string(), "LOW");
    assert_eq!(Severity::Medium.to_display_string(), "MEDIUM");
    assert_eq!(Severity::High.to_display_string(), "HIGH");
    assert_eq!(Severity::Critical.to_display_string(), "CRITICAL");
}

#[test]
fn severity_rank_follows_order() {
    assert_eq!(Severity::Low.rank(), 0);
    assert_eq!(Severity::Critical.rank(), 3);
}

#[test]
fn error_display_texts() {
    assert_eq!(Error::Config("bad".to_string()).to_display_string(), "Configuration error: bad");
    assert_eq!(
        Error::Network { target: "svc".to_string(), message: "down".to_string() }.to_display_string(),
        "Network error to svc: down"
    );
    assert_eq!(
        Error::CircuitOpen { service_id: "a".to_string(), retry_after_ms: 250 }.to_display_string(),
        "Circuit breaker open for a, retry after 250ms"
    );
    assert_eq!(
        Error::ConsensusQuorum { required: 27, received: 12 }.to_display_string(),
        "Consensus quorum not reached: 12/27"
    );
    assert_eq!(
        Error::ViewChange { current_view: 3, new_view: 4 }.to_display_string(),
        "View change required: 3 -> 4"
    );
    assert_eq!(
        Error::Timeout { operation: "sync".to_string(), timeout_ms: 1000 }.to_display_string(),
        "Operation 'sync' timed out after 1000ms"
    );
    assert_eq!(Error::Other("plain".to_string()).to_display_string(), "plain");
    assert_eq!(Error::Validation("v".to_string()).to_display_string(), "Validation error: v");
}

#[test]
fn error_classification() {
    let net = Error::Network { target: "x".to_string(), message: "y".to_string() };
    assert!(net.is_retryable());
    assert!(net.is_transient());
    assert_eq!(net.severity(), Severity::Medium);
    assert_eq!(net.error_code(), 1200);
    assert_eq!(net.error_category(), "network");

    let locked = Error::Database("database is locked".to_string());
    assert!(locked.is_retryable());
    assert!(!locked.is_transient());
    let other_db = Error::Database("syntax error".to_string());
    assert!(!other_db.is_retryable());

    let view = Error::ViewChange { current_view: 1, new_view: 2 };
    assert_eq!(view.severity(), Severity::Critical);
    assert_eq!(view.error_code(), 1301);
    assert_eq!(view.error_category(), "consensus");

    let v = Error::Validation("x".to_string());
    assert!(!v.is_retryable());
    assert_eq!(v.severity(), Severity::Low);
    assert_eq!(v.error_code(), 1500);
    assert_eq!(v.error_category(), "validation");
}

#[test]
fn io_error_classification_by_kind() {
    let timed_out = Error::Io { kind: "TimedOut".to_string(), message: "t".to_string() };
    assert!(timed_out.is_retryable());
    assert!(timed_out.is_transient());
    let refused = Error::Io { kind: "ConnectionRefused".to_string(), message: "r".to_string() };
    assert!(refused.is_retryable());
    assert!(!refused.is_transient());
    let missing = Error::Io { kind: "NotFound".to_string(), message: "n".to_string() };
    assert!(!missing.is_retryable());
    assert_eq!(missing.error_code(), 1600);
    assert_eq!(missing.to_display_string(), "IO error: n");
}

#[test]
fn error_clone_and_eq() {
    let e = Error::HealthCheckFailed { service_id: "s".to_string(), reason: "r".to_string() };
    assert_eq!(e.clone(), e);
    assert_ne!(e, Error::Other("r".to_string()));
}

#[test]
fn error_from_string_is_other() {
    let e: Error = String::from("boom").into();
    assert_eq!(e, Error::Other("boom".to_string()));
}
