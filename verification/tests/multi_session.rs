use yuha::multi_session::{SessionId, SessionManager, SessionManagerConfig, SessionMetadata, SessionStatus};
use yuha::transport::setup::{GeneralTransportConfig, LocalTransportConfig, TransportConfig};
use yuha::transport::TransportType;

fn local_config(path: &str) -> TransportConfig {
    TransportConfig {
        transport_type: TransportType::Local,
        local: Some(LocalTransportConfig { binary_path: path.to_string(), args: vec![], working_dir: None }),
        ssh: None,
        tcp: None,
        wsl: None,
        general: GeneralTransportConfig::default(),
    }
}

#[test]
fn test_session_metadata_creation() {
    let metadata = SessionMetadata::new(
        "test-session".to_string(),
        local_config("test"),
        vec!["test".to_string()],
        Some("Test session".to_string()),
    );
    assert_eq!(metadata.name, "test-session");
    assert_eq!(metadata.status, SessionStatus::Connecting);
    assert!(metadata.has_tags(&["test".to_string()]));
    assert_eq!(metadata.use_count, 0);
    assert_eq!(metadata.connection_key(), "local://test");
}

#[test]
fn test_session_manager_creation() {
    let manager = SessionManager::new(SessionManagerConfig::default());
    let stats = manager.get_stats();
    assert_eq!(stats.total_sessions_created, 0);
    assert_eq!(stats.active_sessions, 0);
}

#[test]
fn test_session_creation_and_management() {
    let mut manager = SessionManager::new(SessionManagerConfig::default());
    let session_id = manager
        .create_session("test-session".to_string(), local_config("test"), vec!["test".to_string()], None)
        .unwrap();

    let metadata = manager.get_session_metadata(session_id).unwrap();
    assert_eq!(metadata.name, "test-session");

    manager.use_session(session_id).unwrap();
    assert_eq!(manager.get_session_metadata(session_id).unwrap().use_count, 1);

    manager.close_session(session_id).unwrap();
    assert!(manager.get_session_metadata(session_id).is_none());
}

#[test]
fn session_legacy_test_session_limits() {
    let mut config = SessionManagerConfig::default();
    config.max_concurrent_sessions = 1;
    let mut manager = SessionManager::new(config);
    manager.create_session("session1".to_string(), local_config("test"), vec![], None).unwrap();
    let result = manager.create_session("session2".to_string(), local_config("test"), vec![], None);
    assert!(result.is_err());
}

#[test]
fn sessions_per_connection_are_limited() {
    let mut config = SessionManagerConfig::default();
    config.max_sessions_per_connection = 1;
    let mut manager = SessionManager::new(config);
    manager.create_session("a".to_string(), local_config("same"), vec![], None).unwrap();
    assert!(manager.create_session("b".to_string(), local_config("same"), vec![], None).is_err());
    assert!(manager.create_session("c".to_string(), local_config("other"), vec![], None).is_ok());
}

#[test]
fn statistics_follow_status_changes() {
    let mut manager = SessionManager::new(SessionManagerConfig::default());
    let id = manager.create_session_at("s".to_string(), local_config("p"), vec![], None, SessionId(1), 0).unwrap();
    assert_eq!(manager.get_stats().total_sessions_created, 1);
    assert_eq!(manager.get_stats().active_sessions, 1);
    manager.update_session_status(id, SessionStatus::Active).unwrap();
    assert_eq!(manager.get_stats().successful_connections, 1);
    manager.update_session_status(id, SessionStatus::Idle).unwrap();
    assert_eq!(manager.get_stats().idle_sessions, 1);
    assert_eq!(manager.find_pooled_session("local://p"), Some(id));
    manager.update_session_status(id, SessionStatus::Failed).unwrap();
    assert_eq!(manager.get_stats().failed_sessions, 1);
    assert_eq!(manager.get_stats().failed_connections, 1);
    assert!(manager.update_session_status(SessionId(99), SessionStatus::Active).is_err());
}

#[test]
fn lists_by_tags_and_all() {
    let mut manager = SessionManager::new(SessionManagerConfig::default());
    manager.create_session_at("a".to_string(), local_config("p"), vec!["x".to_string()], None, SessionId(1), 0).unwrap();
    manager.create_session_at("b".to_string(), local_config("q"), vec![], None, SessionId(2), 0).unwrap();
    assert_eq!(manager.list_sessions().len(), 2);
    assert_eq!(manager.list_sessions_by_tags(&["x".to_string()]).len(), 1);
}

#[test]
fn cleanup_removes_expired_sessions() {
    let mut manager = SessionManager::new(SessionManagerConfig::default());
    let failed = manager.create_session_at("f".to_string(), local_config("p"), vec![], None, SessionId(1), 0).unwrap();
    manager.update_session_status(failed, SessionStatus::Failed).unwrap();
    let old = manager.create_session_at("o".to_string(), local_config("q"), vec![], None, SessionId(2), 0).unwrap();
    let young =
        manager.create_session_at("y".to_string(), local_config("r"), vec![], None, SessionId(3), 3_000_000).unwrap();
    let removed = manager.cleanup_expired_sessions_at(3_600_001);
    assert_eq!(removed, vec![failed, old]);
    assert!(manager.get_session_metadata(young).is_some());
    assert!(manager.start_cleanup_task());
    assert!(!manager.start_cleanup_task());
    manager.stop_cleanup_task();
    assert!(!manager.is_cleanup_running());
}

#[test]
fn metadata_ages_and_idle_time() {
    let mut m = SessionMetadata::new_at(SessionId(1), "m".to_string(), local_config("p"), vec![], None, 1_000);
    m.mark_used_at(4_000);
    assert_eq!(m.use_count, 1);
    assert_eq!(m.age_at(5_000), 4_000);
    assert_eq!(m.idle_time_at(5_000), 1_000);
    assert_eq!(m.idle_time_at(0), 0);
}
