use yuha::error::categories::{ErrorCategory, ErrorClassification, ErrorMetrics, ErrorSeverity};
use yuha::error::context::{ContextualError, ErrorContext};
use yuha::error::{ConfigError, SessionError, TransportError, YuhaError};
use yuha::simple_error::{self, ChannelError};

#[test]
fn messages_follow_the_variants() {
    let e = YuhaError::Transport(TransportError::ConnectionFailed { reason: "refused".to_string() });
    assert_eq!(e.to_string(), "Connection failed: refused");
    assert_eq!(e.category(), "transport");
    assert!(e.is_retriable());
    assert_eq!(e.user_message(), "Unable to connect to remote server. Please check your connection settings.");

    let c = YuhaError::config("bad port");
    assert_eq!(c.to_string(), "Configuration validation failed: bad port");
    assert!(!c.is_retriable());
    assert_eq!(c.user_message(), c.to_string());

    let i = YuhaError::internal("oops");
    assert_eq!(i.to_string(), "Internal error: oops");
    assert_eq!(i.category(), "internal");
    assert!(matches!(YuhaError::session("x"), YuhaError::Session(SessionError::InvalidState { .. })));
    assert!(matches!(
        YuhaError::Config(ConfigError::ValidationFailed { reason: "r".to_string() }),
        YuhaError::Config(_)
    ));
}

#[test]
fn classification_of_errors() {
    let e = YuhaError::Transport(TransportError::NotAvailable {
        transport_type: "WSL".to_string(),
        reason: "no".to_string(),
    });
    assert!(matches!(ErrorClassification::severity(&e), ErrorSeverity::Critical));
    assert!(matches!(ErrorClassification::category(&e), ErrorCategory::Network));
    assert!(e.should_alert());
    assert!(e.is_user_facing());
    let i = YuhaError::internal("x");
    assert!(matches!(ErrorClassification::severity(&i), ErrorSeverity::Fatal));
    assert_eq!(ErrorCategory::UserInput.to_string(), "user_input");

    let m = ErrorMetrics::from_error_at(&e, 7).with_operation("connect").with_component("client");
    assert_eq!(m.error_type, "transport");
    assert_eq!(m.timestamp, 7);
    assert_eq!(m.operation.as_deref(), Some("connect"));
    assert_eq!(m.component.as_deref(), Some("client"));
}

#[test]
fn contextual_errors_render_their_context() {
    let context = ErrorContext::new_at("connect", "transport", 0).with_host("example.com").with_session_id("s1");
    assert_eq!(context.metadata_text(), "{\"host\": \"example.com\", \"session_id\": \"s1\"}");
    let err = ContextualError::new(YuhaError::internal("boom"), context);
    assert_eq!(
        err.with_context(),
        "[transport:connect] internal: Internal error: boom (metadata: {\"host\": \"example.com\", \"session_id\": \"s1\"})"
    );
}

#[test]
fn channel_errors() {
    assert_eq!(ChannelError::timeout(30).to_string(), "Operation timed out after 30 seconds");
    assert_eq!(ChannelError::buffer_overflow(70000).to_string(), "Buffer overflow: message too large (70000 bytes)");
    let e = simple_error::YuhaError::Channel(ChannelError::timeout(1));
    assert!(e.is_retriable());
    assert_eq!(e.category(), "channel");
}

#[test]
fn channel_layer_messages() {
    assert_eq!(simple_error::YuhaError::config("x").to_string(), "Configuration error: x");
    assert_eq!(simple_error::YuhaError::internal("y").to_string(), "Internal error: y");
    assert_eq!(
        simple_error::YuhaError::Channel(ChannelError::buffer_overflow(1)).to_string(),
        "Buffer overflow: message too large (1 bytes)"
    );
}

#[test]
fn new_context_has_no_facts() {
    let context = ErrorContext::new("op", "comp");
    assert_eq!(context.metadata.len(), 0);
    assert_eq!(context.metadata_text(), "{}");
}
