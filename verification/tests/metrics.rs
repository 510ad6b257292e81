use maintenance_engine::metrics::{
    escape_label_value, gauge_add_fixed, metric_full_name, validate_metric_name, Labels,
};
use maintenance_engine::Error;

#[test]
fn test_labels_builder() {
    let labels = Labels::new().service("synthex").layer("L1").module("M04").status("healthy");
    let formatted = labels.prometheus_format();
    assert!(formatted.contains("service=\"synthex\""));
    assert!(formatted.contains("layer=\"L1\""));
    assert!(formatted.contains("module=\"M04\""));
    assert!(formatted.contains("status=\"healthy\""));
}

#[test]
fn metrics_test_labels_from_pairs() {
    let labels = Labels::from_pairs(&[("method", "GET"), ("endpoint", "/health")]);
    let formatted = labels.prometheus_format();
    assert!(formatted.contains("method=\"GET\""));
    assert!(formatted.contains("endpoint=\"/health\""));
}

#[test]
fn test_labels_empty() {
    let labels = Labels::new();
    assert!(labels.is_empty());
    assert_eq!(labels.prometheus_format(), "");
}

#[test]
fn test_labels_special_characters() {
    let labels = Labels::new()
        .with("path", "/api/v1/test")
        .with("msg", "Line1\nLine2")
        .with("quote", "Say \"hello\"");
    let formatted = labels.prometheus_format();
    assert!(formatted.contains(r#"msg="Line1\nLine2""#));
    assert!(formatted.contains(r#"quote="Say \"hello\"""#));
}

#[test]
fn test_labels_builder_chain_preserves_sort_order() {
    let labels = Labels::new().with("z_key", "last").with("a_key", "first").with("m_key", "middle");
    let formatted = labels.prometheus_format();
    let a_pos = formatted.find("a_key");
    let m_pos = formatted.find("m_key");
    let z_pos = formatted.find("z_key");
    assert!(a_pos.is_some());
    assert!(m_pos.is_some());
    assert!(z_pos.is_some());
    if let (Some(a), Some(m), Some(z)) = (a_pos, m_pos, z_pos) {
        assert!(a < m);
        assert!(m < z);
    }
}

#[test]
fn test_labels_from_pairs_empty() {
    let labels = Labels::from_pairs(&[]);
    assert!(labels.is_empty());
    assert_eq!(labels.prometheus_format(), "");
}

#[test]
fn test_metric_validation() {
    assert!(validate_metric_name("valid_metric").is_ok());
    assert!(validate_metric_name("valid:metric").is_ok());
    assert!(validate_metric_name("_valid_metric").is_ok());
    assert!(validate_metric_name("Valid123").is_ok());
    assert!(validate_metric_name("").is_err());
    assert!(validate_metric_name("123invalid").is_err());
    assert!(validate_metric_name("invalid-metric").is_err());
    assert!(validate_metric_name("invalid.metric").is_err());
}

#[test]
fn metric_validation_messages() {
    assert_eq!(
        validate_metric_name(""),
        Err(Error::Validation("Metric name cannot be empty".to_string()))
    );
    assert_eq!(
        validate_metric_name("9x"),
        Err(Error::Validation("Metric name '9x' must start with [a-zA-Z_:]".to_string()))
    );
    assert_eq!(
        validate_metric_name("ab-c.d"),
        Err(Error::Validation("Metric name 'ab-c.d' contains invalid character '-'".to_string()))
    );
}

#[test]
fn test_labels_agent_adds_key() {
    let labels = Labels::new().agent("@0.A");
    let debug = format!("{labels:?}");
    assert!(debug.contains("agent"));
    assert!(debug.contains("@0.A"));
}

#[test]
fn test_labels_agent_chains_with_service() {
    let labels = Labels::new().service("me").agent("bot-1");
    let debug = format!("{labels:?}");
    assert!(debug.contains("agent"));
    assert!(debug.contains("service"));
}

#[test]
fn test_labels_agent_sorts_correctly() {
    let labels = Labels::new().service("me").agent("bot");
    let prom = labels.prometheus_format();
    let agent_pos = prom.find("agent").expect("agent label");
    let service_pos = prom.find("service").expect("service label");
    assert!(agent_pos < service_pos, "agent should sort before service");
}

#[test]
fn test_labels_with_empty_key_and_value() {
    let labels = Labels::new().with("", "");
    let formatted = labels.prometheus_format();
    assert!(formatted.contains("=\"\""));
    assert!(!labels.is_empty());
}

#[test]
fn labels_exact_prometheus_text() {
    let labels = Labels::new().with("b", "2").with("a", "x\\y").with("b", "1");
    assert_eq!(labels.prometheus_format(), "{a=\"x\\\\y\",b=\"2\",b=\"1\"}");
}

#[test]
fn from_pairs_is_a_stable_sort() {
    let labels = Labels::from_pairs(&[("k", "1"), ("a", "z"), ("k", "0")]);
    assert_eq!(labels.prometheus_format(), "{a=\"z\",k=\"1\",k=\"0\"}");
    let built = Labels::new().with("k", "1").with("a", "z").with("k", "0");
    assert_eq!(labels, built);
}

#[test]
fn labels_clone_is_equal() {
    let labels = Labels::new().service("s").layer("L2");
    assert_eq!(labels.clone(), labels);
}

#[test]
fn escape_label_value_cases() {
    assert_eq!(escape_label_value("plain"), "plain");
    assert_eq!(escape_label_value("a\"b\\c\nd"), "a\\\"b\\\\c\\nd");
}

#[test]
fn metric_full_name_with_and_without_prefix() {
    assert_eq!(metric_full_name("", "requests_total"), "requests_total");
    assert_eq!(metric_full_name("maintenance", "requests_total"), "maintenance_requests_total");
}

#[test]
fn gauge_fixed_point_addition() {
    assert_eq!(gauge_add_fixed(5_000_000, -2_000_000), 3_000_000);
    assert_eq!(gauge_add_fixed(1, -5), 0);
    assert_eq!(gauge_add_fixed(u64::MAX, 1), 0);
    assert_eq!(gauge_add_fixed(i64::MAX as u64, 1), i64::MAX as u64);
    assert_eq!(gauge_add_fixed(0, 1_000_000), 1_000_000);
}

#[test]
fn from_pairs_ignores_the_order_of_distinct_keys() {
    let a = Labels::from_pairs(&[("method", "GET"), ("endpoint", "/health")]);
    let b = Labels::from_pairs(&[("endpoint", "/health"), ("method", "GET")]);
    assert_eq!(a, b);
    assert_eq!(a.prometheus_format(), "{endpoint=\"/health\",method=\"GET\"}");
}
