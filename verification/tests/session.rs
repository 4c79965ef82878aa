use yuha::session::lifecycle::{SessionLifecycle, SessionLifecycleConfig, SessionReconnectionManager};
use yuha::session::manager::{SessionEvent, SessionManager};
use yuha::session::pool::{SessionPool, SessionPoolConfig};
use yuha::session::registry::{SessionRegistry, SessionRegistryConfig};
use yuha::session::{SessionId, SessionManagerConfig, SessionMetadata, SessionPriority, SessionStatus};
use yuha::transport::TransportBuilder;

fn tcp_config(port: u16) -> yuha::transport::TransportConfig {
    TransportBuilder::tcp().host("localhost").port(port).build().unwrap()
}

fn idle_metadata(name: &str, port: u16, now: u64) -> SessionMetadata {
    let mut m = SessionMetadata::new_at(SessionId::new(), name, tcp_config(port), vec![], None, now);
    m.status = SessionStatus::Idle;
    m
}

#[test]
fn test_session_id_creation() {
    let id1 = SessionId::new();
    let id2 = SessionId::new();
    assert_ne!(id1, id2);

    let id_str = id1.as_str();
    let parsed_id = SessionId::parse(&id_str).unwrap();
    assert_eq!(id1, parsed_id);
}

#[test]
fn session_id_text_is_a_hyphenated_uuid() {
    let id = SessionId(0x0123_4567_89ab_cdef_0123_4567_89ab_cdef);
    assert_eq!(id.as_str(), "01234567-89ab-cdef-0123-456789abcdef");
    assert_eq!(id.to_string(), id.as_str());
    assert!(SessionId::parse("not-a-uuid").is_err());
}

#[test]
fn test_session_registration() {
    let mut registry = SessionRegistry::new(SessionRegistryConfig::default());
    let metadata = SessionMetadata::new(
        "test-session",
        tcp_config(9999),
        vec!["test".to_string()],
        Some("Test session".to_string()),
    );
    let session_id = metadata.id;
    let registered_id = registry.register(metadata.clone()).unwrap();
    assert_eq!(session_id, registered_id);

    let retrieved = registry.get(session_id).unwrap();
    assert_eq!(retrieved.name, "test-session");
    assert_eq!(retrieved.id, session_id);
    assert_eq!(retrieved.status, SessionStatus::Connecting);
}

#[test]
fn test_session_lookup_by_name() {
    let mut registry = SessionRegistry::new(SessionRegistryConfig::default());
    let metadata = SessionMetadata::new("test-session", tcp_config(9999), vec![], None);
    registry.register(metadata).unwrap();

    let sessions = registry.list_by_name("test-session");
    assert_eq!(sessions.len(), 1);
    assert_eq!(sessions[0].name, "test-session");

    let no_sessions = registry.list_by_name("nonexistent");
    assert_eq!(no_sessions.len(), 0);
}

#[test]
fn test_session_status_updates() {
    let mut registry = SessionRegistry::new(SessionRegistryConfig::default());
    let metadata = SessionMetadata::new("test", tcp_config(9999), vec![], None);
    let session_id = registry.register(metadata).unwrap();

    registry.update_status(session_id, SessionStatus::Active).unwrap();
    let updated = registry.get(session_id).unwrap();
    assert_eq!(updated.status, SessionStatus::Active);
    assert_eq!(registry.count_by_status(SessionStatus::Active), 1);
}

#[test]
fn registry_test_session_limits() {
    let config = SessionRegistryConfig { max_sessions: 1, ..Default::default() };
    let mut registry = SessionRegistry::new(config);
    let metadata1 = SessionMetadata::new("session1", tcp_config(9999), vec![], None);
    registry.register(metadata1).unwrap();

    let metadata2 = SessionMetadata::new("session2", tcp_config(9999), vec![], None);
    let result = registry.register(metadata2);
    assert!(result.is_err());
    assert_eq!(registry.count(), 1);
}

#[test]
fn registry_refuses_duplicate_names_when_asked() {
    let config = SessionRegistryConfig { allow_duplicate_names: false, ..Default::default() };
    let mut registry = SessionRegistry::new(config);
    registry.register(SessionMetadata::new("same", tcp_config(1), vec![], None)).unwrap();
    assert!(registry.register(SessionMetadata::new("same", tcp_config(2), vec![], None)).is_err());
    assert!(registry.register(SessionMetadata::new("other", tcp_config(2), vec![], None)).is_ok());
    assert_eq!(registry.count(), 2);
}

#[test]
fn registry_unregister_removes_from_every_index() {
    let mut registry = SessionRegistry::new(SessionRegistryConfig::default());
    let m = SessionMetadata::new("gone", tcp_config(7), vec!["a".to_string()], None);
    let id = registry.register(m).unwrap();
    assert_eq!(registry.list_by_connection_key("tcp://localhost:7").len(), 1);
    let removed = registry.unregister(id).unwrap();
    assert_eq!(removed.unwrap().id, id);
    assert!(!registry.contains_session(id));
    assert_eq!(registry.list_by_name("gone").len(), 0);
    assert_eq!(registry.list_by_connection_key("tcp://localhost:7").len(), 0);
    assert!(registry.unregister(id).unwrap().is_none());
}

#[test]
fn registry_lists_by_tags_require_every_tag() {
    let mut registry = SessionRegistry::new(SessionRegistryConfig::default());
    registry
        .register(SessionMetadata::new("a", tcp_config(1), vec!["x".to_string(), "y".to_string()], None))
        .unwrap();
    registry.register(SessionMetadata::new("b", tcp_config(2), vec!["x".to_string()], None)).unwrap();
    assert_eq!(registry.list_by_tags(&["x".to_string()]).len(), 2);
    assert_eq!(registry.list_by_tags(&["x".to_string(), "y".to_string()]).len(), 1);
    assert_eq!(registry.list_all().len(), 2);
    registry.clear();
    assert_eq!(registry.count(), 0);
}

#[test]
fn registry_update_of_unknown_session_is_not_found() {
    let mut registry = SessionRegistry::new(SessionRegistryConfig::default());
    assert!(registry.update_status(SessionId(5), SessionStatus::Active).is_err());
    assert!(registry.mark_used(SessionId(5)).is_err());
}

#[test]
fn test_session_pooling() {
    let mut pool = SessionPool::new(SessionPoolConfig::default());
    let metadata = idle_metadata("test-session", 9999, 1_000);

    let added = pool.add_session_at(&metadata, 1_000).unwrap();
    assert!(added);

    let connection_key = metadata.connection_key();
    // Pooled sessions are handed out once they have been pooled for the minimum idle time.
    assert_eq!(pool.find_session_at(&connection_key, 2_000), None);
    let found = pool.find_session_at(&connection_key, 6_000);
    assert_eq!(found, Some(metadata.id));

    let removed = pool.remove_session(metadata.id).unwrap();
    assert!(removed);
    assert_eq!(pool.find_session_at(&connection_key, 6_000), None);
    assert!(!pool.remove_session(metadata.id).unwrap());
}

#[test]
fn test_pool_limits() {
    let config = SessionPoolConfig { max_sessions_per_connection: 1, ..Default::default() };
    let mut pool = SessionPool::new(config);
    let metadata1 = idle_metadata("session1", 9999, 0);
    assert!(pool.add_session_at(&metadata1, 0).unwrap());
    let metadata2 = idle_metadata("session2", 9999, 0);
    assert!(!pool.add_session_at(&metadata2, 0).unwrap());
}

#[test]
fn test_pool_stats() {
    let config = SessionPoolConfig::default();
    let mut pool = SessionPool::new(config);
    let stats = pool.get_stats();
    assert_eq!(stats.enabled, config.enabled);
    assert_eq!(stats.total_pooled_sessions, 0);
    assert_eq!(stats.connection_pools, 0);

    let metadata = idle_metadata("test", 9999, 0);
    pool.add_session_at(&metadata, 0).unwrap();
    let stats = pool.get_stats();
    assert_eq!(stats.total_pooled_sessions, 1);
    assert_eq!(stats.connection_pools, 1);
    assert_eq!(stats.largest_pool_size, 1);
}

#[test]
fn pool_refuses_sessions_that_are_not_idle_or_active() {
    let mut pool = SessionPool::new(SessionPoolConfig::default());
    let m = SessionMetadata::new_at(SessionId(1), "c", tcp_config(1), vec![], None, 0);
    assert!(!pool.add_session_at(&m, 0).unwrap());
    let disabled = SessionPoolConfig { enabled: false, ..Default::default() };
    let mut off = SessionPool::new(disabled);
    assert!(!off.add_session_at(&idle_metadata("i", 1, 0), 0).unwrap());
}

#[test]
fn pool_prefers_the_higher_score() {
    let mut pool = SessionPool::new(SessionPoolConfig::default());
    let low = idle_metadata("low", 5, 0);
    let mut high = idle_metadata("high", 5, 0);
    high.priority = SessionPriority::High;
    pool.add_session_at(&low, 0).unwrap();
    pool.add_session_at(&high, 0).unwrap();
    assert_eq!(pool.find_session_at("tcp://localhost:5", 10_000), Some(high.id));
    assert_eq!(pool.list_pool("tcp://localhost:5"), vec![low.id, high.id]);
}

#[test]
fn pool_cleanup_takes_out_the_sessions_pooled_too_long() {
    let mut pool = SessionPool::new(SessionPoolConfig::default());
    let old = idle_metadata("old", 1, 0);
    let new = idle_metadata("new", 2, 0);
    pool.add_session_at(&old, 0).unwrap();
    pool.add_session_at(&new, 50_000).unwrap();
    let removed = pool.cleanup_expired_at(60_000, 70_000);
    assert_eq!(removed, vec![old.id]);
    assert!(!pool.is_pooled(old.id));
    assert!(pool.is_pooled(new.id));
    assert_eq!(pool.get_pool_metadata(new.id).unwrap().pooled_at, 50_000);
    assert_eq!(pool.list_connection_keys(), vec!["tcp://localhost:2".to_string()]);
    pool.clear();
    assert!(!pool.is_pooled(new.id));
}

#[test]
fn test_session_expiration_rules() {
    let lifecycle = SessionLifecycle::new(SessionLifecycleConfig::default());
    let mut session = SessionMetadata::new("test-session", tcp_config(9999), vec![], None);
    assert!(!lifecycle.should_expire_session(&session));
    session.set_status(SessionStatus::Failed);
    assert!(lifecycle.should_expire_session(&session));
}

#[test]
fn idle_and_old_sessions_expire() {
    let lifecycle = SessionLifecycle::new(SessionLifecycleConfig::default());
    let mut session = SessionMetadata::new_at(SessionId(3), "s", tcp_config(1), vec![], None, 0);
    session.status = SessionStatus::Idle;
    assert!(!lifecycle.should_expire_session_at(&session, 300_000));
    assert!(lifecycle.should_expire_session_at(&session, 300_001));
    session.status = SessionStatus::Active;
    assert!(!lifecycle.should_expire_session_at(&session, 3_600_000));
    assert!(lifecycle.should_expire_session_at(&session, 3_600_001));
}

#[test]
fn failed_sessions_are_reconnected_when_enabled() {
    let mut lifecycle = SessionLifecycle::new(SessionLifecycleConfig::default());
    let mut session = SessionMetadata::new_at(SessionId(3), "s", tcp_config(1), vec![], None, 0);
    session.status = SessionStatus::Failed;
    assert!(lifecycle.should_reconnect_session_at(&session, 1));
    let off = SessionLifecycleConfig { enable_auto_reconnect: false, ..Default::default() };
    lifecycle.update_config(off);
    assert!(!lifecycle.should_reconnect_session_at(&session, 1));
    assert!(!lifecycle.get_config().enable_auto_reconnect);
}

#[test]
fn cleanup_task_starts_once() {
    let mut lifecycle = SessionLifecycle::new(SessionLifecycleConfig::default());
    assert!(lifecycle.start_cleanup_task());
    assert!(!lifecycle.start_cleanup_task());
    assert!(lifecycle.is_cleanup_running());
    lifecycle.stop_cleanup_task();
    assert!(!lifecycle.is_cleanup_running());
}

#[test]
fn test_reconnection_manager() {
    let config = SessionLifecycleConfig::default();
    let mut manager = SessionReconnectionManager::new();
    let session_id = SessionId::new();

    assert!(manager.can_reconnect(session_id, &config));
    for _ in 0..config.max_reconnect_attempts {
        manager.record_reconnection_attempt(session_id);
    }
    assert!(!manager.can_reconnect(session_id, &config));

    manager.reset_reconnection(session_id);
    assert!(manager.can_reconnect(session_id, &config));
}

#[test]
fn reconnection_waits_for_the_delay_and_counts_attempts() {
    let config = SessionLifecycleConfig::default();
    let mut manager = SessionReconnectionManager::new();
    manager.record_reconnection_attempt_at(SessionId(1), 1_000);
    assert!(!manager.can_reconnect_at(SessionId(1), &config, 5_999));
    assert!(manager.can_reconnect_at(SessionId(1), &config, 6_000));
    manager.record_reconnection_attempt_at(SessionId(1), 6_000);
    manager.record_reconnection_attempt_at(SessionId(2), 6_000);
    let stats = manager.get_stats();
    assert_eq!(stats.sessions_with_attempts, 2);
    assert_eq!(stats.total_attempts, 3);
    assert_eq!(stats.max_attempts_for_session, 2);
    manager.cleanup_session(SessionId(1));
    assert_eq!(manager.get_stats().total_attempts, 1);
}

#[test]
fn test_session_creation_and_retrieval() {
    let mut manager = SessionManager::new(SessionManagerConfig::default());
    let session_id = manager
        .create_session("test-session", tcp_config(9999), vec!["test".to_string()], Some("Test session".to_string()))
        .unwrap();
    assert!(manager.session_exists(session_id));
    let metadata = manager.get_session(session_id).unwrap();
    assert_eq!(metadata.name, "test-session");
    assert_eq!(metadata.id, session_id);
}

#[test]
fn test_session_lifecycle() {
    let mut manager = SessionManager::new(SessionManagerConfig::default());
    let session_id = manager.create_session("test-session", tcp_config(9999), vec![], None).unwrap();

    manager.update_session_status(session_id, SessionStatus::Active).unwrap();
    assert_eq!(manager.get_session(session_id).unwrap().status, SessionStatus::Active);

    manager.use_session(session_id).unwrap();
    assert_eq!(manager.get_session(session_id).unwrap().use_count, 1);

    manager.close_session(session_id).unwrap();
    assert!(!manager.session_exists(session_id));
    assert!(manager.close_session(session_id).is_err());
}

#[test]
fn test_session_reuse() {
    let mut manager = SessionManager::new(SessionManagerConfig::default());
    let config = tcp_config(9999);
    let (session_id1, reused1) =
        manager.connect_or_create_session_at("session1", config.clone(), SessionId(1), 0).unwrap();
    assert!(!reused1);
    manager.update_session_status_at(session_id1, SessionStatus::Idle, 0).unwrap();

    // Reuse comes once the session has been pooled for the pool's minimum idle time.
    let (session_id2, reused2) =
        manager.connect_or_create_session_at("session2", config, SessionId(2), 5_000).unwrap();
    assert!(reused2);
    assert_eq!(session_id1, session_id2);
    assert_eq!(manager.get_session(session_id1).unwrap().use_count, 1);
}

#[test]
fn manager_reports_events() {
    let mut manager = SessionManager::new(SessionManagerConfig::default());
    let id = manager.create_session_at("e", tcp_config(1), vec![], None, SessionId(9), 0).unwrap();
    manager.update_session_status_at(id, SessionStatus::Active, 1).unwrap();
    manager.close_session_at(id, 2).unwrap();
    let events = manager.take_events();
    assert!(matches!(events[0], SessionEvent::Created { .. }));
    assert!(matches!(events.last(), Some(SessionEvent::Closed { .. })));
    assert!(manager.take_events().is_empty());
}

#[test]
fn manager_cleanup_closes_expired_sessions() {
    let mut manager = SessionManager::new(SessionManagerConfig::default());
    let id = manager.create_session_at("f", tcp_config(1), vec![], None, SessionId(4), 0).unwrap();
    manager.update_session_status_at(id, SessionStatus::Failed, 0).unwrap();
    let keep = manager.create_session_at("k", tcp_config(2), vec![], None, SessionId(5), 0).unwrap();
    let removed = manager.cleanup_expired_sessions_at(10);
    assert_eq!(removed, vec![id]);
    assert!(!manager.session_exists(id));
    assert!(manager.session_exists(keep));
    assert_eq!(manager.session_count(), 1);
}

#[test]
fn manager_lists_and_pool_stats() {
    let mut manager = SessionManager::new(SessionManagerConfig::default());
    let a = manager.create_session_at("a", tcp_config(1), vec!["t".to_string()], None, SessionId(1), 0).unwrap();
    manager.create_session_at("b", tcp_config(2), vec![], None, SessionId(2), 0).unwrap();
    manager.update_session_status_at(a, SessionStatus::Idle, 0).unwrap();
    assert_eq!(manager.list_sessions().len(), 2);
    assert_eq!(manager.list_sessions_by_status(SessionStatus::Idle).len(), 1);
    assert_eq!(manager.list_sessions_by_tags(&["t".to_string()]).len(), 1);
    assert_eq!(manager.get_pool_stats().total_pooled_sessions, 1);
    assert_eq!(manager.find_reusable_session_at("tcp://localhost:1", 5_000), Some(a));
    assert!(manager.get_config().enable_metrics);
}
