use yuha::metrics::{MetricsConfig, PerformanceMetrics, SystemMetrics};
use yuha::session::metrics::SessionMetricsCollector;
use yuha::session::{SessionId, SessionMetadata, SessionStatus};
use yuha::transport::{TransportBuilder, TransportType};

fn session(id: u128, created: u64) -> SessionMetadata {
    let config = TransportBuilder::local().build().unwrap();
    SessionMetadata::new_at(SessionId(id), "s", config, vec![], None, created)
}

#[test]
fn test_performance_metrics() {
    let mut perf = PerformanceMetrics::default();
    perf.record_success(100);
    perf.record_success(200);
    perf.record_error(Some(50));
    assert_eq!(perf.operation_count, 3);
    assert_eq!(perf.error_count, 1);
    assert_eq!(perf.total_duration, 350);
    assert_eq!(perf.avg_duration, 116);
    assert_eq!(perf.min_duration, 50);
    assert_eq!(perf.max_duration, 200);
    let rate = (perf.operation_count - perf.error_count) as f64 / perf.operation_count as f64;
    assert!((rate - 0.6666666666666666).abs() < f64::EPSILON);
}

#[test]
fn untimed_errors_count_without_timing() {
    let mut perf = PerformanceMetrics::default();
    perf.record_error(None);
    assert_eq!(perf.operation_count, 1);
    assert_eq!(perf.error_count, 1);
    assert_eq!(perf.min_duration, u64::MAX);
    assert_eq!(perf.avg_duration, 0);
}

#[test]
fn test_system_metrics() {
    let mut system = SystemMetrics::new_at(1_000);
    system.record_transport_connection(TransportType::Local, 100, true);
    system.record_data_transfer(TransportType::Local, 1024, 2048);
    system.record_feature_usage("clipboard");
    system.record_feature_usage("clipboard");
    system.update_uptime_at(4_000);
    let local = system.transport_metrics.get(&TransportType::Local).unwrap();
    assert_eq!(local.bytes_sent, 1024);
    assert_eq!(local.bytes_received, 2048);
    assert_eq!(local.connections.operation_count, 1);
    assert_eq!(system.feature_usage.get(&"clipboard".to_string()), Some(&2));
    assert_eq!(system.uptime, 3_000);
    system.record_transport_connection(TransportType::Local, 10, false);
    assert_eq!(system.transport_metrics.get(&TransportType::Local).unwrap().connections.error_count, 1);
}

#[test]
fn metrics_config_defaults() {
    let config = MetricsConfig::default();
    assert!(config.enabled);
    assert_eq!(config.collection_interval, 30);
    assert_eq!(config.max_samples, 1000);
    assert_eq!(config.export_formats, vec!["json".to_string()]);
}

#[test]
fn test_metrics_collection() {
    let mut collector = SessionMetricsCollector::new();
    let s = session(1, 0);
    collector.record_session_created(&s);
    collector.record_connection_success(s.id);
    collector.record_status_change(s.id, SessionStatus::Connecting, SessionStatus::Active);
    collector.record_session_usage(s.id, 1);

    let metrics = collector.get_metrics();
    assert_eq!(metrics.total_sessions_created, 1);
    assert_eq!(metrics.successful_connections, 1);
    assert_eq!(metrics.active_sessions, 1);
    assert_eq!(metrics.peak_concurrent_sessions, 1);
    assert_eq!(metrics.total_usage_count, 1);
    assert_eq!(metrics.transport_usage.get(&TransportType::Local), Some(&1));
}

#[test]
fn closing_samples_lifetimes_and_counts_reuse() {
    let mut collector = SessionMetricsCollector::new();
    let mut a = session(1, 0);
    let b = session(2, 0);
    collector.record_session_created(&a);
    collector.record_session_created(&b);
    collector.record_status_change(a.id, SessionStatus::Connecting, SessionStatus::Active);
    collector.record_session_usage(a.id, 2);
    a.status = SessionStatus::Active;
    a.last_used = 4_000;
    collector.record_session_closed_at(&a, 10_000);
    let metrics = collector.get_metrics();
    assert_eq!(metrics.sessions_closed, 1);
    assert_eq!(metrics.active_sessions, 0);
    assert_eq!(metrics.avg_session_lifetime, 10_000);
    assert_eq!(metrics.avg_idle_time, 6_000);
    assert_eq!(metrics.reused_sessions, 1);
    assert_eq!(metrics.tracked_sessions, 2);

    collector.cleanup_old_history_at(1_000, 20_000);
    collector.record_session_closed_at(&b, 20_000);
    let metrics = collector.get_metrics();
    assert_eq!(metrics.reused_sessions, 0);
    assert_eq!(metrics.tracked_sessions, 1);
    assert_eq!(metrics.avg_session_lifetime, 15_000);
}

#[test]
fn test_metrics_reset() {
    let mut collector = SessionMetricsCollector::new();
    let s = session(1, 0);
    collector.record_session_created(&s);
    collector.record_connection_failure(s.id);
    collector.reset();
    let metrics = collector.get_metrics();
    assert_eq!(metrics.total_sessions_created, 0);
    assert_eq!(metrics.failed_connections, 0);
    assert!(metrics.transport_usage.is_empty());
}

#[test]
fn counts_stop_at_zero() {
    let mut collector = SessionMetricsCollector::new();
    collector.record_status_change(SessionId(1), SessionStatus::Idle, SessionStatus::Failed);
    assert_eq!(collector.get_metrics().idle_sessions, 0);
    assert_eq!(collector.get_metrics().failed_sessions, 1);
}
