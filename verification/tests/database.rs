use maintenance_engine::database::{CorrelationEntry, DatabaseHealthReport};

#[test]
fn health_report_counts_checks() {
    let r = DatabaseHealthReport::from_checks(&[true, false, true], "2024-01-01T00:00:00+00:00".to_string());
    assert_eq!(r.total_databases, 3);
    assert_eq!(r.healthy_databases, 2);
    assert!(!r.all_healthy);
    assert_eq!(r.checked_at, "2024-01-01T00:00:00+00:00");
}

#[test]
fn health_report_all_healthy() {
    let r = DatabaseHealthReport::from_checks(&[true, true], String::new());
    assert!(r.all_healthy);
    let empty = DatabaseHealthReport::from_checks(&[], String::new());
    assert!(empty.all_healthy);
    assert_eq!(empty.total_databases, 0);
}

#[test]
fn correlation_entry_fields() {
    let e = CorrelationEntry {
        id: "c-1".to_string(),
        channel: "health".to_string(),
        event_type: "restart".to_string(),
        link_count: 3,
        timestamp: "2024-01-01T00:00:00Z".to_string(),
    };
    let c = e.clone();
    assert_eq!(c.link_count, 3);
    assert_eq!(c.channel, "health");
}
