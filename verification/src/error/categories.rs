//! Classification of errors by severity and category.
use vstd::prelude::*;

use super::{TransportError, ProtocolError, SessionError, DaemonError, YuhaError, category_name};
use crate::text::str_eq;

verus! {

/// How serious an error is, from least to most.
#[derive(Debug, Clone, Copy, PartialEq, Eq, Structural, PartialOrd, Ord, Hash)]
pub enum ErrorSeverity {
    /// The operation can continue.
    Info,
    /// A minor issue; the operation can continue.
    Warning,
    /// The operation failed but can be retried.
    Error,
    /// The operation failed and needs intervention.
    Critical,
    /// The failure cannot be recovered from.
    Fatal,
}

/// Broad kinds of errors.
#[derive(Debug, Clone, Copy, PartialEq, Eq, Structural, Hash)]
pub enum ErrorCategory {
    /// Network errors.
    Network,
    /// Authentication and authorization errors.
    Authentication,
    /// Configuration errors.
    Configuration,
    /// Resource errors (memory, disk).
    Resource,
    /// Errors in user input.
    UserInput,
    /// System and platform errors.
    System,
    /// Errors in the application's logic.
    Logic,
    /// Errors of external services.
    External,
}

/// The rank of a severity, from 0 for `Info` to 4 for `Fatal`.
pub open spec fn severity_rank(s: ErrorSeverity) -> int {
    match s {
        ErrorSeverity::Info => 0,
        ErrorSeverity::Warning => 1,
        ErrorSeverity::Error => 2,
        ErrorSeverity::Critical => 3,
        ErrorSeverity::Fatal => 4,
    }
}

/// The severity of an error.
pub open spec fn severity_of(e: &YuhaError) -> ErrorSeverity {
    match e {
        YuhaError::Transport(t) => match t {
            TransportError::NotAvailable { .. } => ErrorSeverity::Critical,
            _ => ErrorSeverity::Error,
        },
        YuhaError::Protocol(p) => match p {
            ProtocolError::Timeout { .. } => ErrorSeverity::Warning,
            ProtocolError::BufferOverflow { .. } => ErrorSeverity::Critical,
            _ => ErrorSeverity::Error,
        },
        YuhaError::Session(s) => match s {
            SessionError::NotFound { .. } => ErrorSeverity::Warning,
            SessionError::MaxSessionsReached { .. } => ErrorSeverity::Critical,
            SessionError::Expired { .. } => ErrorSeverity::Warning,
            _ => ErrorSeverity::Error,
        },
        YuhaError::Config(_) => ErrorSeverity::Error,
        YuhaError::Io(_) => ErrorSeverity::Error,
        YuhaError::Clipboard(_) => ErrorSeverity::Warning,
        YuhaError::Browser(_) => ErrorSeverity::Warning,
        YuhaError::Auth(_) => ErrorSeverity::Error,
        YuhaError::Daemon(d) => match d {
            DaemonError::AlreadyRunning { .. } => ErrorSeverity::Warning,
            DaemonError::ClientLimitReached { .. } => ErrorSeverity::Critical,
            DaemonError::ShuttingDown => ErrorSeverity::Info,
            _ => ErrorSeverity::Error,
        },
        YuhaError::Internal { .. } => ErrorSeverity::Fatal,
    }
}

/// The category of an error.
pub open spec fn category_of(e: &YuhaError) -> ErrorCategory {
    match e {
        YuhaError::Transport(_) => ErrorCategory::Network,
        YuhaError::Protocol(_) => ErrorCategory::Network,
        YuhaError::Session(_) => ErrorCategory::Logic,
        YuhaError::Config(_) => ErrorCategory::Configuration,
        YuhaError::Io(_) => ErrorCategory::System,
        YuhaError::Clipboard(_) => ErrorCategory::System,
        YuhaError::Browser(_) => ErrorCategory::External,
        YuhaError::Auth(_) => ErrorCategory::Authentication,
        YuhaError::Daemon(_) => ErrorCategory::Logic,
        YuhaError::Internal { .. } => ErrorCategory::Logic,
    }
}

/// The category that a category name stands for; `Logic` for any other name.
pub open spec fn category_from_name(n: Seq<char>) -> ErrorCategory {
    if n == "network"@ {
        ErrorCategory::Network
    } else if n == "authentication"@ {
        ErrorCategory::Authentication
    } else if n == "configuration"@ {
        ErrorCategory::Configuration
    } else if n == "resource"@ {
        ErrorCategory::Resource
    } else if n == "user_input"@ {
        ErrorCategory::UserInput
    } else if n == "system"@ {
        ErrorCategory::System
    } else if n == "logic"@ {
        ErrorCategory::Logic
    } else if n == "external"@ {
        ErrorCategory::External
    } else {
        ErrorCategory::Logic
    }
}

/// Classifies errors.
pub trait ErrorClassification {
    /// The severity of the error.
    fn severity(&self) -> ErrorSeverity;

    /// The category that `category` returns.
    spec fn category_spec(&self) -> ErrorCategory;

    /// The category of the error.
    fn category(&self) -> (cat: ErrorCategory)
        ensures
            cat == self.category_spec(),
    ;

    /// Whether users should see the error.
    fn is_user_facing(&self) -> bool;

    /// Whether the error should be logged.
    fn should_log(&self) -> bool;

    /// Whether the error should raise an alert.
    fn should_alert(&self) -> bool;
}

impl ErrorClassification for YuhaError {
    fn severity(&self) -> (r: ErrorSeverity)
        ensures
            r == severity_of(self),
    {
        match self {
            YuhaError::Transport(transport_err) => match transport_err {
                TransportError::ConnectionFailed { .. } => ErrorSeverity::Error,
                TransportError::AuthenticationFailed { .. } => ErrorSeverity::Error,
                TransportError::NotAvailable { .. } => ErrorSeverity::Critical,
                TransportError::ConfigurationError { .. } => ErrorSeverity::Error,
                _ => ErrorSeverity::Error,
            },
            YuhaError::Protocol(protocol_err) => match protocol_err {
                ProtocolError::Timeout { .. } => ErrorSeverity::Warning,
                ProtocolError::ChannelClosed => ErrorSeverity::Error,
                ProtocolError::BufferOverflow { .. } => ErrorSeverity::Critical,
                _ => ErrorSeverity::Error,
            },
            YuhaError::Session(session_err) => match session_err {
                SessionError::NotFound { .. } => ErrorSeverity::Warning,
                SessionError::MaxSessionsReached { .. } => ErrorSeverity::Critical,
                SessionError::Expired { .. } => ErrorSeverity::Warning,
                _ => ErrorSeverity::Error,
            },
            YuhaError::Config(_) => ErrorSeverity::Error,
            YuhaError::Io(_) => ErrorSeverity::Error,
            YuhaError::Clipboard(_) => ErrorSeverity::Warning,
            YuhaError::Browser(_) => ErrorSeverity::Warning,
            YuhaError::Auth(_) => ErrorSeverity::Error,
            YuhaError::Daemon(daemon_err) => match daemon_err {
                DaemonError::NotRunning => ErrorSeverity::Error,
                DaemonError::AlreadyRunning { .. } => ErrorSeverity::Warning,
                DaemonError::ClientLimitReached { .. } => ErrorSeverity::Critical,
                DaemonError::ShuttingDown => ErrorSeverity::Info,
                _ => ErrorSeverity::Error,
            },
            YuhaError::Internal { .. } => ErrorSeverity::Fatal,
        }
    }

    open spec fn category_spec(&self) -> ErrorCategory {
        category_of(self)
    }

    fn category(&self) -> (cat: ErrorCategory) {
        match self {
            YuhaError::Transport(_) => ErrorCategory::Network,
            YuhaError::Protocol(_) => ErrorCategory::Network,
            YuhaError::Session(_) => ErrorCategory::Logic,
            YuhaError::Config(_) => ErrorCategory::Configuration,
            YuhaError::Io(_) => ErrorCategory::System,
            YuhaError::Clipboard(_) => ErrorCategory::System,
            YuhaError::Browser(_) => ErrorCategory::External,
            YuhaError::Auth(_) => ErrorCategory::Authentication,
            YuhaError::Daemon(_) => ErrorCategory::Logic,
            YuhaError::Internal { .. } => ErrorCategory::Logic,
        }
    }

    fn is_user_facing(&self) -> (r: bool)
        ensures
            r == (severity_rank(severity_of(self)) >= 2),
    {
        match ErrorClassification::severity(self) {
            ErrorSeverity::Info | ErrorSeverity::Warning => false,
            ErrorSeverity::Error | ErrorSeverity::Critical | ErrorSeverity::Fatal => true,
        }
    }

    fn should_log(&self) -> (r: bool)
        ensures
            r == (severity_of(self) != ErrorSeverity::Info),
    {
        !matches!(ErrorClassification::severity(self), ErrorSeverity::Info)
    }

    fn should_alert(&self) -> (r: bool)
        ensures
            r == (severity_rank(severity_of(self)) >= 3),
    {
        matches!(ErrorClassification::severity(self), ErrorSeverity::Critical | ErrorSeverity::Fatal)
    }
}

/// A record of an error for monitoring.
#[derive(Debug, Clone)]
pub struct ErrorMetrics {
    /// The error's category name.
    pub error_type: String,
    /// The error's category.
    pub category: ErrorCategory,
    /// The error's severity.
    pub severity: ErrorSeverity,
    /// When the record was made, in milliseconds since the Unix epoch.
    pub timestamp: u64,
    /// The operation that failed, if known.
    pub operation: Option<String>,
    /// The component that failed, if known.
    pub component: Option<String>,
}

fn category_from_str(n: &str) -> (r: ErrorCategory)
    ensures
        r == category_from_name(n@),
{
    if str_eq(n, "network") {
        ErrorCategory::Network
    } else if str_eq(n, "authentication") {
        ErrorCategory::Authentication
    } else if str_eq(n, "configuration") {
        ErrorCategory::Configuration
    } else if str_eq(n, "resource") {
        ErrorCategory::Resource
    } else if str_eq(n, "user_input") {
        ErrorCategory::UserInput
    } else if str_eq(n, "system") {
        ErrorCategory::System
    } else if str_eq(n, "logic") {
        ErrorCategory::Logic
    } else if str_eq(n, "external") {
        ErrorCategory::External
    } else {
        ErrorCategory::Logic
    }
}

impl ErrorMetrics {
    /// A record of an error made at a given time.
    pub fn from_error_at(error: &YuhaError, timestamp: u64) -> (r: Self)
        ensures
            r.error_type@ == category_name(error),
            r.category == category_from_name(category_name(error)),
            r.severity == severity_of(error),
            r.timestamp == timestamp,
            r.operation.is_none(),
            r.component.is_none(),
    {
        let name = error.category();
        ErrorMetrics {
            error_type: String::from_str(name),
            category: category_from_str(name),
            severity: ErrorClassification::severity(error),
            timestamp,
            operation: None,
            component: None,
        }
    }

    /// A record of an error made now.
    pub fn from_error(error: &YuhaError) -> (r: Self)
        ensures
            r.error_type@ == category_name(error),
            r.category == category_from_name(category_name(error)),
            r.severity == severity_of(error),
            r.operation.is_none(),
            r.component.is_none(),
    {
        Self::from_error_at(error, crate::clock::now_millis())
    }

    /// The record with the failed operation set.
    pub fn with_operation(self, operation: &str) -> (r: Self)
        ensures
            r.operation matches Some(o) && o@ == operation@,
            r.error_type == self.error_type,
            r.category == self.category,
            r.severity == self.severity,
            r.timestamp == self.timestamp,
            r.component == self.component,
    {
        let mut m = self;
        m.operation = Some(String::from_str(operation));
        m
    }

    /// The record with the failed component set.
    pub fn with_component(self, component: &str) -> (r: Self)
        ensures
            r.component matches Some(c) && c@ == component@,
            r.error_type == self.error_type,
            r.category == self.category,
            r.severity == self.severity,
            r.timestamp == self.timestamp,
            r.operation == self.operation,
    {
        let mut m = self;
        m.component = Some(String::from_str(component));
        m
    }
}

impl ErrorCategory {
    /// The category's name.
    pub fn to_string(&self) -> (r: String)
        ensures
            r@ == match self {
                ErrorCategory::Network => "network"@,
                ErrorCategory::Authentication => "authentication"@,
                ErrorCategory::Configuration => "configuration"@,
                ErrorCategory::Resource => "resource"@,
                ErrorCategory::UserInput => "user_input"@,
                ErrorCategory::System => "system"@,
                ErrorCategory::Logic => "logic"@,
                ErrorCategory::External => "external"@,
            },
    {
        match self {
            ErrorCategory::Network => String::from_str("network"),
            ErrorCategory::Authentication => String::from_str("authentication"),
            ErrorCategory::Configuration => String::from_str("configuration"),
            ErrorCategory::Resource => String::from_str("resource"),
            ErrorCategory::UserInput => String::from_str("user_input"),
            ErrorCategory::System => String::from_str("system"),
            ErrorCategory::Logic => String::from_str("logic"),
            ErrorCategory::External => String::from_str("external"),
        }
    }
}

impl ErrorSeverity {
    /// The severity's name.
    pub fn to_string(&self) -> (r: String)
        ensures
            r@ == match self {
                ErrorSeverity::Info => "info"@,
                ErrorSeverity::Warning => "warning"@,
                ErrorSeverity::Error => "error"@,
                ErrorSeverity::Critical => "critical"@,
                ErrorSeverity::Fatal => "fatal"@,
            },
    {
        match self {
            ErrorSeverity::Info => String::from_str("info"),
            ErrorSeverity::Warning => String::from_str("warning"),
            ErrorSeverity::Error => String::from_str("error"),
            ErrorSeverity::Critical => String::from_str("critical"),
            ErrorSeverity::Fatal => String::from_str("fatal"),
        }
    }
}

} // verus!
