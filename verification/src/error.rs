//! Errors of every part of yuha, with their messages and classification.
use vstd::prelude::*;

use crate::text::{decimal, u64_to_decimal};

pub mod categories;
pub mod context;
pub mod retry;

verus! {

/// The standard library's I/O error, carried through unchanged.
#[verifier::external_type_specification]
#[verifier::external_body]
pub struct ExIoError(std::io::Error);

/// Renders an I/O error with its `Display` implementation.
#[verifier::external_body]
fn io_error_to_string(e: &std::io::Error) -> String {
    e.to_string()
}

/// The central error type of yuha.
#[derive(Debug)]
pub enum YuhaError {
    /// Transport errors (SSH, local, TCP, WSL).
    Transport(TransportError),
    /// Protocol errors.
    Protocol(ProtocolError),
    /// Session management errors.
    Session(SessionError),
    /// Configuration errors.
    Config(ConfigError),
    /// I/O errors.
    Io(std::io::Error),
    /// Clipboard errors.
    Clipboard(ClipboardError),
    /// Browser errors.
    Browser(BrowserError),
    /// Authentication and authorization errors.
    Auth(AuthError),
    /// Daemon errors.
    Daemon(DaemonError),
    /// Internal errors.
    Internal { message: String },
}

/// The name of an error's category, as used in logs and metrics.
pub open spec fn category_name(e: &YuhaError) -> Seq<char> {
    match e {
        YuhaError::Transport(_) => "transport"@,
        YuhaError::Protocol(_) => "protocol"@,
        YuhaError::Session(_) => "session"@,
        YuhaError::Config(_) => "config"@,
        YuhaError::Io(_) => "io"@,
        YuhaError::Clipboard(_) => "clipboard"@,
        YuhaError::Browser(_) => "browser"@,
        YuhaError::Auth(_) => "auth"@,
        YuhaError::Daemon(_) => "daemon"@,
        YuhaError::Internal { .. } => "internal"@,
    }
}

/// Whether an error is worth retrying.
pub open spec fn retriable(e: &YuhaError) -> bool {
    match e {
        YuhaError::Transport(TransportError::ConnectionFailed { .. }) => true,
        YuhaError::Protocol(ProtocolError::Timeout { .. }) => true,
        YuhaError::Protocol(ProtocolError::ChannelClosed) => true,
        YuhaError::Io(_) => true,
        YuhaError::Daemon(DaemonError::SocketError { .. }) => true,
        _ => false,
    }
}

/// Transient failures are worth retrying: every I/O error, whatever its kind, a failed
/// connection, a protocol timeout, a closed channel and a daemon socket failure. A malformed
/// message or a configuration mistake is not, since trying again cannot fix it.
pub proof fn lemma_transient_errors_are_retriable(io: std::io::Error, reason: String, seconds: u64)
    ensures
        retriable(&YuhaError::Io(io)),
        retriable(&YuhaError::Transport(TransportError::ConnectionFailed { reason })),
        retriable(&YuhaError::Protocol(ProtocolError::Timeout { seconds })),
        retriable(&YuhaError::Protocol(ProtocolError::ChannelClosed)),
        retriable(&YuhaError::Daemon(DaemonError::SocketError { reason })),
        !retriable(&YuhaError::Protocol(ProtocolError::InvalidFormat { reason })),
        forall|e: ConfigError| !retriable(&#[trigger] YuhaError::Config(e)),
{
}

impl YuhaError {
    /// The message of an error other than an I/O error.
    pub open spec fn text(&self) -> Seq<char> {
        match self {
            YuhaError::Transport(e) => e.text(),
            YuhaError::Protocol(e) => e.text(),
            YuhaError::Session(e) => e.text(),
            YuhaError::Config(e) => e.text(),
            YuhaError::Io(_) => Seq::empty(),
            YuhaError::Clipboard(e) => e.text(),
            YuhaError::Browser(e) => e.text(),
            YuhaError::Auth(e) => e.text(),
            YuhaError::Daemon(e) => e.text(),
            YuhaError::Internal { message } => "Internal error: "@ + message@,
        }
    }

    /// A protocol error about a malformed message.
    pub fn protocol(message: &str) -> (r: Self)
        ensures
            r matches YuhaError::Protocol(ProtocolError::InvalidFormat { reason }) && reason@ == message@,
    {
        YuhaError::Protocol(ProtocolError::InvalidFormat { reason: String::from_str(message) })
    }

    /// A configuration error about a failed validation.
    pub fn config(message: &str) -> (r: Self)
        ensures
            r matches YuhaError::Config(ConfigError::ValidationFailed { reason }) && reason@ == message@,
    {
        YuhaError::Config(ConfigError::ValidationFailed { reason: String::from_str(message) })
    }

    /// A session error about a session in an unexpected state.
    pub fn session(message: &str) -> (r: Self)
        ensures
            r matches YuhaError::Session(SessionError::InvalidState { current_state, expected_state })
                && current_state@ == "unknown"@ && expected_state@ == message@,
    {
        YuhaError::Session(
            SessionError::InvalidState {
                current_state: String::from_str("unknown"),
                expected_state: String::from_str(message),
            },
        )
    }

    /// An internal error.
    pub fn internal(message: &str) -> (r: Self)
        ensures
            r matches YuhaError::Internal { message: m } && m@ == message@,
    {
        YuhaError::Internal { message: String::from_str(message) }
    }

    /// Whether the error is worth retrying.
    pub fn is_retriable(&self) -> (r: bool)
        ensures
            r == retriable(self),
    {
        match self {
            YuhaError::Transport(TransportError::ConnectionFailed { .. }) => true,
            YuhaError::Protocol(ProtocolError::Timeout { .. }) => true,
            YuhaError::Protocol(ProtocolError::ChannelClosed) => true,
            YuhaError::Io(_) => true,
            YuhaError::Daemon(DaemonError::SocketError { .. }) => true,
            _ => false,
        }
    }

    /// The error's category, for logs and metrics.
    pub fn category(&self) -> (r: &'static str)
        ensures
            r@ == category_name(self),
    {
        match self {
            YuhaError::Transport(_) => "transport",
            YuhaError::Protocol(_) => "protocol",
            YuhaError::Session(_) => "session",
            YuhaError::Config(_) => "config",
            YuhaError::Io(_) => "io",
            YuhaError::Clipboard(_) => "clipboard",
            YuhaError::Browser(_) => "browser",
            YuhaError::Auth(_) => "auth",
            YuhaError::Daemon(_) => "daemon",
            YuhaError::Internal { .. } => "internal",
        }
    }

    /// Renders the error's message.
    pub fn to_string(&self) -> (r: String)
        ensures
            !(self is Io) ==> r@ == self.text(),
    {
        match self {
            YuhaError::Transport(e) => e.to_string(),
            YuhaError::Protocol(e) => e.to_string(),
            YuhaError::Session(e) => e.to_string(),
            YuhaError::Config(e) => e.to_string(),
            YuhaError::Io(e) => io_error_to_string(e),
            YuhaError::Clipboard(e) => e.to_string(),
            YuhaError::Browser(e) => e.to_string(),
            YuhaError::Auth(e) => e.to_string(),
            YuhaError::Daemon(e) => e.to_string(),
            YuhaError::Internal { message } => {
                let mut s = String::from_str("Internal error: ");
                s.append(message.as_str());
                s
            },
        }
    }

    /// A message meant for users: a friendlier wording for some errors, the error's message otherwise.
    pub fn user_message(&self) -> (r: String)
        ensures
            self matches YuhaError::Transport(TransportError::ConnectionFailed { .. })
                ==> r@ == "Unable to connect to remote server. Please check your connection settings."@,
            self matches YuhaError::Config(ConfigError::FileError { .. })
                ==> r@ == "Configuration file error. Please check your configuration."@,
            self matches YuhaError::Auth(AuthError::InvalidCredentials { .. })
                ==> r@ == "Invalid credentials. Please check your username and password."@,
            !(self matches YuhaError::Transport(TransportError::ConnectionFailed { .. }))
                && !(self matches YuhaError::Config(ConfigError::FileError { .. }))
                && !(self matches YuhaError::Auth(AuthError::InvalidCredentials { .. }))
                && !(self is Io) ==> r@ == self.text(),
    {
        match self {
            YuhaError::Transport(TransportError::ConnectionFailed { .. }) => String::from_str(
                "Unable to connect to remote server. Please check your connection settings.",
            ),
            YuhaError::Config(ConfigError::FileError { .. }) => String::from_str(
                "Configuration file error. Please check your configuration.",
            ),
            YuhaError::Auth(AuthError::InvalidCredentials { .. }) => String::from_str(
                "Invalid credentials. Please check your username and password.",
            ),
            _ => self.to_string(),
        }
    }
}

/// Errors of the transports (SSH, local process, TCP, WSL).
#[derive(Debug)]
pub enum TransportError {
    /// The connection could not be made.
    ConnectionFailed { reason: String },
    /// The remote side refused the credentials.
    AuthenticationFailed { reason: String },
    /// The transport cannot be used here.
    NotAvailable { transport_type: String, reason: String },
    /// The transport configuration is not usable.
    ConfigurationError { reason: String },
    /// An SSH error.
    Ssh(SshError),
    /// A local process error.
    Local(LocalError),
    /// A TCP error.
    Tcp(TcpError),
    /// A WSL error.
    Wsl(WslError),
}

impl TransportError {
    /// The message that describes the error.
    pub open spec fn text(&self) -> Seq<char> {
        match self {
            TransportError::ConnectionFailed { reason } => "Connection failed: "@ + reason@,
            TransportError::AuthenticationFailed { reason } => "Authentication failed: "@ + reason@,
            TransportError::NotAvailable { transport_type, reason } => "Transport '"@ + transport_type@ + "' not available: "@ + reason@,
            TransportError::ConfigurationError { reason } => "Transport configuration error: "@ + reason@,
            TransportError::Ssh(e) => e.text(),
            TransportError::Local(e) => e.text(),
            TransportError::Tcp(e) => e.text(),
            TransportError::Wsl(e) => e.text(),
        }
    }

    /// Renders the message that describes the error.
    pub fn to_string(&self) -> (r: String)
        ensures
            r@ == self.text(),
    {
        match self {
            TransportError::ConnectionFailed { reason } => {
                let mut s = String::from_str("Connection failed: ");
                s.append(reason.as_str());
                s
            },
            TransportError::AuthenticationFailed { reason } => {
                let mut s = String::from_str("Authentication failed: ");
                s.append(reason.as_str());
                s
            },
            TransportError::NotAvailable { transport_type, reason } => {
                let mut s = String::from_str("Transport '");
                s.append(transport_type.as_str());
                s.append("' not available: ");
                s.append(reason.as_str());
                s
            },
            TransportError::ConfigurationError { reason } => {
                let mut s = String::from_str("Transport configuration error: ");
                s.append(reason.as_str());
                s
            },
            TransportError::Ssh(e) => e.to_string(),
            TransportError::Local(e) => e.to_string(),
            TransportError::Tcp(e) => e.to_string(),
            TransportError::Wsl(e) => e.to_string(),
        }
    }
}

/// Errors of the SSH transport.
#[derive(Debug)]
pub enum SshError {
    /// The key file is missing or invalid.
    KeyError { reason: String },
    /// The host key could not be verified.
    HostKeyVerification { reason: String },
    /// No channel could be opened.
    ChannelCreation { reason: String },
    /// The remote command failed.
    CommandExecution { reason: String },
    /// The remote binary could not be uploaded.
    BinaryUpload { reason: String },
}

impl SshError {
    /// The message that describes the error.
    pub open spec fn text(&self) -> Seq<char> {
        match self {
            SshError::KeyError { reason } => "SSH key error: "@ + reason@,
            SshError::HostKeyVerification { reason } => "Host key verification failed: "@ + reason@,
            SshError::ChannelCreation { reason } => "SSH channel creation failed: "@ + reason@,
            SshError::CommandExecution { reason } => "SSH command execution failed: "@ + reason@,
            SshError::BinaryUpload { reason } => "Binary upload failed: "@ + reason@,
        }
    }

    /// Renders the message that describes the error.
    pub fn to_string(&self) -> (r: String)
        ensures
            r@ == self.text(),
    {
        match self {
            SshError::KeyError { reason } => {
                let mut s = String::from_str("SSH key error: ");
                s.append(reason.as_str());
                s
            },
            SshError::HostKeyVerification { reason } => {
                let mut s = String::from_str("Host key verification failed: ");
                s.append(reason.as_str());
                s
            },
            SshError::ChannelCreation { reason } => {
                let mut s = String::from_str("SSH channel creation failed: ");
                s.append(reason.as_str());
                s
            },
            SshError::CommandExecution { reason } => {
                let mut s = String::from_str("SSH command execution failed: ");
                s.append(reason.as_str());
                s
            },
            SshError::BinaryUpload { reason } => {
                let mut s = String::from_str("Binary upload failed: ");
                s.append(reason.as_str());
                s
            },
        }
    }
}

/// Errors of the local process transport.
#[derive(Debug)]
pub enum LocalError {
    /// The binary does not exist.
    BinaryNotFound { path: String },
    /// The binary cannot be executed.
    BinaryNotExecutable { path: String },
    /// The process could not be started.
    ProcessSpawn { reason: String },
    /// Talking to the process failed.
    ProcessCommunication { reason: String },
}

impl LocalError {
    /// The message that describes the error.
    pub open spec fn text(&self) -> Seq<char> {
        match self {
            LocalError::BinaryNotFound { path } => "Local binary not found: "@ + path@,
            LocalError::BinaryNotExecutable { path } => "Local binary not executable: "@ + path@,
            LocalError::ProcessSpawn { reason } => "Process spawn failed: "@ + reason@,
            LocalError::ProcessCommunication { reason } => "Process communication failed: "@ + reason@,
        }
    }

    /// Renders the message that describes the error.
    pub fn to_string(&self) -> (r: String)
        ensures
            r@ == self.text(),
    {
        match self {
            LocalError::BinaryNotFound { path } => {
                let mut s = String::from_str("Local binary not found: ");
                s.append(path.as_str());
                s
            },
            LocalError::BinaryNotExecutable { path } => {
                let mut s = String::from_str("Local binary not executable: ");
                s.append(path.as_str());
                s
            },
            LocalError::ProcessSpawn { reason } => {
                let mut s = String::from_str("Process spawn failed: ");
                s.append(reason.as_str());
                s
            },
            LocalError::ProcessCommunication { reason } => {
                let mut s = String::from_str("Process communication failed: ");
                s.append(reason.as_str());
                s
            },
        }
    }
}

/// Errors of the TCP transport.
#[derive(Debug)]
pub enum TcpError {
    /// The connection timed out.
    ConnectionTimeout { timeout_ms: u64 },
    /// The peer refused the connection.
    ConnectionRefused { address: String },
    /// A TLS error.
    TlsError { reason: String },
}

impl TcpError {
    /// The message that describes the error.
    pub open spec fn text(&self) -> Seq<char> {
        match self {
            TcpError::ConnectionTimeout { timeout_ms } => "TCP connection timeout: "@ + decimal(*timeout_ms as nat) + "ms"@,
            TcpError::ConnectionRefused { address } => "TCP connection refused: "@ + address@,
            TcpError::TlsError { reason } => "TLS error: "@ + reason@,
        }
    }

    /// Renders the message that describes the error.
    pub fn to_string(&self) -> (r: String)
        ensures
            r@ == self.text(),
    {
        match self {
            TcpError::ConnectionTimeout { timeout_ms } => {
                let mut s = String::from_str("TCP connection timeout: ");
                let d_timeout_ms = u64_to_decimal(*timeout_ms as u64);
                s.append(d_timeout_ms.as_str());
                s.append("ms");
                s
            },
            TcpError::ConnectionRefused { address } => {
                let mut s = String::from_str("TCP connection refused: ");
                s.append(address.as_str());
                s
            },
            TcpError::TlsError { reason } => {
                let mut s = String::from_str("TLS error: ");
                s.append(reason.as_str());
                s
            },
        }
    }
}

/// Errors of the WSL transport.
#[derive(Debug)]
pub enum WslError {
    /// WSL is missing.
    NotAvailable,
    /// The distribution does not exist.
    DistributionNotFound { distribution: String },
    /// The command failed.
    CommandExecution { reason: String },
}

impl WslError {
    /// The message that describes the error.
    pub open spec fn text(&self) -> Seq<char> {
        match self {
            WslError::NotAvailable => "WSL not available on this system"@,
            WslError::DistributionNotFound { distribution } => "WSL distribution not found: "@ + distribution@,
            WslError::CommandExecution { reason } => "WSL command execution failed: "@ + reason@,
        }
    }

    /// Renders the message that describes the error.
    pub fn to_string(&self) -> (r: String)
        ensures
            r@ == self.text(),
    {
        match self {
            WslError::NotAvailable => {
                let mut s = String::from_str("WSL not available on this system");
                s
            },
            WslError::DistributionNotFound { distribution } => {
                let mut s = String::from_str("WSL distribution not found: ");
                s.append(distribution.as_str());
                s
            },
            WslError::CommandExecution { reason } => {
                let mut s = String::from_str("WSL command execution failed: ");
                s.append(reason.as_str());
                s
            },
        }
    }
}

/// Errors of the message protocol.
#[derive(Debug)]
pub enum ProtocolError {
    /// A message could not be encoded.
    Serialization { reason: String },
    /// A message could not be decoded.
    Deserialization { reason: String },
    /// The peers speak different protocol versions.
    VersionMismatch { expected: String, actual: String },
    /// A message is malformed.
    InvalidFormat { reason: String },
    /// The channel closed unexpectedly.
    ChannelClosed,
    /// No answer came in time.
    Timeout { seconds: u64 },
    /// A message is too large to frame.
    BufferOverflow { size: usize },
}

impl ProtocolError {
    /// The message that describes the error.
    pub open spec fn text(&self) -> Seq<char> {
        match self {
            ProtocolError::Serialization { reason } => "Message serialization failed: "@ + reason@,
            ProtocolError::Deserialization { reason } => "Message deserialization failed: "@ + reason@,
            ProtocolError::VersionMismatch { expected, actual } => "Protocol version mismatch: expected "@ + expected@ + ", got "@ + actual@,
            ProtocolError::InvalidFormat { reason } => "Invalid message format: "@ + reason@,
            ProtocolError::ChannelClosed => "Protocol channel closed unexpectedly"@,
            ProtocolError::Timeout { seconds } => "Protocol timeout after "@ + decimal(*seconds as nat) + " seconds"@,
            ProtocolError::BufferOverflow { size } => "Protocol buffer overflow: message too large ("@ + decimal(*size as nat) + " bytes)"@,
        }
    }

    /// Renders the message that describes the error.
    pub fn to_string(&self) -> (r: String)
        ensures
            r@ == self.text(),
    {
        match self {
            ProtocolError::Serialization { reason } => {
                let mut s = String::from_str("Message serialization failed: ");
                s.append(reason.as_str());
                s
            },
            ProtocolError::Deserialization { reason } => {
                let mut s = String::from_str("Message deserialization failed: ");
                s.append(reason.as_str());
                s
            },
            ProtocolError::VersionMismatch { expected, actual } => {
                let mut s = String::from_str("Protocol version mismatch: expected ");
                s.append(expected.as_str());
                s.append(", got ");
                s.append(actual.as_str());
                s
            },
            ProtocolError::InvalidFormat { reason } => {
                let mut s = String::from_str("Invalid message format: ");
                s.append(reason.as_str());
                s
            },
            ProtocolError::ChannelClosed => {
                let mut s = String::from_str("Protocol channel closed unexpectedly");
                s
            },
            ProtocolError::Timeout { seconds } => {
                let mut s = String::from_str("Protocol timeout after ");
                let d_seconds = u64_to_decimal(*seconds as u64);
                s.append(d_seconds.as_str());
                s.append(" seconds");
                s
            },
            ProtocolError::BufferOverflow { size } => {
                let mut s = String::from_str("Protocol buffer overflow: message too large (");
                let d_size = u64_to_decimal(*size as u64);
                s.append(d_size.as_str());
                s.append(" bytes)");
                s
            },
        }
    }
}

/// Errors of session management.
#[derive(Debug)]
pub enum SessionError {
    /// No session has this id.
    NotFound { session_id: String },
    /// The session exists already.
    AlreadyExists { session_id: String },
    /// The session limit is reached.
    MaxSessionsReached { limit: u32 },
    /// The session is in the wrong state.
    InvalidState { current_state: String, expected_state: String },
    /// The session expired.
    Expired { session_id: String },
    /// Connection pooling failed.
    PoolingError { reason: String },
}

impl SessionError {
    /// The message that describes the error.
    pub open spec fn text(&self) -> Seq<char> {
        match self {
            SessionError::NotFound { session_id } => "Session not found: "@ + session_id@,
            SessionError::AlreadyExists { session_id } => "Session already exists: "@ + session_id@,
            SessionError::MaxSessionsReached { limit } => "Maximum sessions reached: "@ + decimal(*limit as nat),
            SessionError::InvalidState { current_state, expected_state } => "Session in invalid state: "@ + current_state@ + ", expected: "@ + expected_state@,
            SessionError::Expired { session_id } => "Session expired: "@ + session_id@,
            SessionError::PoolingError { reason } => "Connection pooling error: "@ + reason@,
        }
    }

    /// Renders the message that describes the error.
    pub fn to_string(&self) -> (r: String)
        ensures
            r@ == self.text(),
    {
        match self {
            SessionError::NotFound { session_id } => {
                let mut s = String::from_str("Session not found: ");
                s.append(session_id.as_str());
                s
            },
            SessionError::AlreadyExists { session_id } => {
                let mut s = String::from_str("Session already exists: ");
                s.append(session_id.as_str());
                s
            },
            SessionError::MaxSessionsReached { limit } => {
                let mut s = String::from_str("Maximum sessions reached: ");
                let d_limit = u64_to_decimal(*limit as u64);
                s.append(d_limit.as_str());
                s
            },
            SessionError::InvalidState { current_state, expected_state } => {
                let mut s = String::from_str("Session in invalid state: ");
                s.append(current_state.as_str());
                s.append(", expected: ");
                s.append(expected_state.as_str());
                s
            },
            SessionError::Expired { session_id } => {
                let mut s = String::from_str("Session expired: ");
                s.append(session_id.as_str());
                s
            },
            SessionError::PoolingError { reason } => {
                let mut s = String::from_str("Connection pooling error: ");
                s.append(reason.as_str());
                s
            },
        }
    }
}

/// Errors of the configuration.
#[derive(Debug)]
pub enum ConfigError {
    /// A value is not allowed.
    InvalidValue { key: String, reason: String },
    /// A required value is missing.
    MissingRequired { key: String },
    /// The configuration file could not be used.
    FileError { reason: String },
    /// No profile has this name.
    ProfileNotFound { profile: String },
    /// The configuration is not valid.
    ValidationFailed { reason: String },
}

impl ConfigError {
    /// The message that describes the error.
    pub open spec fn text(&self) -> Seq<char> {
        match self {
            ConfigError::InvalidValue { key, reason } => "Invalid configuration value for '"@ + key@ + "': "@ + reason@,
            ConfigError::MissingRequired { key } => "Missing required configuration: "@ + key@,
            ConfigError::FileError { reason } => "Configuration file error: "@ + reason@,
            ConfigError::ProfileNotFound { profile } => "Configuration profile not found: "@ + profile@,
            ConfigError::ValidationFailed { reason } => "Configuration validation failed: "@ + reason@,
        }
    }

    /// Renders the message that describes the error.
    pub fn to_string(&self) -> (r: String)
        ensures
            r@ == self.text(),
    {
        match self {
            ConfigError::InvalidValue { key, reason } => {
                let mut s = String::from_str("Invalid configuration value for '");
                s.append(key.as_str());
                s.append("': ");
                s.append(reason.as_str());
                s
            },
            ConfigError::MissingRequired { key } => {
                let mut s = String::from_str("Missing required configuration: ");
                s.append(key.as_str());
                s
            },
            ConfigError::FileError { reason } => {
                let mut s = String::from_str("Configuration file error: ");
                s.append(reason.as_str());
                s
            },
            ConfigError::ProfileNotFound { profile } => {
                let mut s = String::from_str("Configuration profile not found: ");
                s.append(profile.as_str());
                s
            },
            ConfigError::ValidationFailed { reason } => {
                let mut s = String::from_str("Configuration validation failed: ");
                s.append(reason.as_str());
                s
            },
        }
    }
}

/// Errors of clipboard operations.
#[derive(Debug)]
pub enum ClipboardError {
    /// Reading the clipboard failed.
    ReadFailed { reason: String },
    /// Writing the clipboard failed.
    WriteFailed { reason: String },
    /// The clipboard may not be used.
    AccessDenied,
    /// The clipboard lock could not be taken.
    LockFailed { reason: String },
    /// The content format is not supported.
    UnsupportedFormat { format: String },
}

impl ClipboardError {
    /// The message that describes the error.
    pub open spec fn text(&self) -> Seq<char> {
        match self {
            ClipboardError::ReadFailed { reason } => "Failed to read clipboard: "@ + reason@,
            ClipboardError::WriteFailed { reason } => "Failed to write clipboard: "@ + reason@,
            ClipboardError::AccessDenied => "Clipboard access denied"@,
            ClipboardError::LockFailed { reason } => "Failed to acquire clipboard lock: "@ + reason@,
            ClipboardError::UnsupportedFormat { format } => "Unsupported clipboard format: "@ + format@,
        }
    }

    /// Renders the message that describes the error.
    pub fn to_string(&self) -> (r: String)
        ensures
            r@ == self.text(),
    {
        match self {
            ClipboardError::ReadFailed { reason } => {
                let mut s = String::from_str("Failed to read clipboard: ");
                s.append(reason.as_str());
                s
            },
            ClipboardError::WriteFailed { reason } => {
                let mut s = String::from_str("Failed to write clipboard: ");
                s.append(reason.as_str());
                s
            },
            ClipboardError::AccessDenied => {
                let mut s = String::from_str("Clipboard access denied");
                s
            },
            ClipboardError::LockFailed { reason } => {
                let mut s = String::from_str("Failed to acquire clipboard lock: ");
                s.append(reason.as_str());
                s
            },
            ClipboardError::UnsupportedFormat { format } => {
                let mut s = String::from_str("Unsupported clipboard format: ");
                s.append(format.as_str());
                s
            },
        }
    }
}

/// Errors of browser operations.
#[derive(Debug)]
pub enum BrowserError {
    /// The URL could not be opened.
    OpenFailed { url: String, reason: String },
    /// The URL is malformed or its scheme is not allowed.
    InvalidUrl { url: String },
    /// There is no default browser.
    NoBrowserAvailable,
    /// The browser could not be run.
    ExecutionFailed { reason: String },
}

impl BrowserError {
    /// The message that describes the error.
    pub open spec fn text(&self) -> Seq<char> {
        match self {
            BrowserError::OpenFailed { url, reason } => "Failed to open URL '"@ + url@ + "': "@ + reason@,
            BrowserError::InvalidUrl { url } => "Invalid URL format: "@ + url@,
            BrowserError::NoBrowserAvailable => "No default browser available"@,
            BrowserError::ExecutionFailed { reason } => "Browser execution failed: "@ + reason@,
        }
    }

    /// Renders the message that describes the error.
    pub fn to_string(&self) -> (r: String)
        ensures
            r@ == self.text(),
    {
        match self {
            BrowserError::OpenFailed { url, reason } => {
                let mut s = String::from_str("Failed to open URL '");
                s.append(url.as_str());
                s.append("': ");
                s.append(reason.as_str());
                s
            },
            BrowserError::InvalidUrl { url } => {
                let mut s = String::from_str("Invalid URL format: ");
                s.append(url.as_str());
                s
            },
            BrowserError::NoBrowserAvailable => {
                let mut s = String::from_str("No default browser available");
                s
            },
            BrowserError::ExecutionFailed { reason } => {
                let mut s = String::from_str("Browser execution failed: ");
                s.append(reason.as_str());
                s
            },
        }
    }
}

/// Errors of authentication and authorization.
#[derive(Debug)]
pub enum AuthError {
    /// The credentials are wrong.
    InvalidCredentials { reason: String },
    /// The operation is not permitted.
    PermissionDenied { operation: String },
    /// The token expired.
    TokenExpired,
    /// The method is not supported.
    MethodNotSupported { method: String },
}

impl AuthError {
    /// The message that describes the error.
    pub open spec fn text(&self) -> Seq<char> {
        match self {
            AuthError::InvalidCredentials { reason } => "Invalid credentials: "@ + reason@,
            AuthError::PermissionDenied { operation } => "Permission denied: "@ + operation@,
            AuthError::TokenExpired => "Authentication token expired"@,
            AuthError::MethodNotSupported { method } => "Authentication method not supported: "@ + method@,
        }
    }

    /// Renders the message that describes the error.
    pub fn to_string(&self) -> (r: String)
        ensures
            r@ == self.text(),
    {
        match self {
            AuthError::InvalidCredentials { reason } => {
                let mut s = String::from_str("Invalid credentials: ");
                s.append(reason.as_str());
                s
            },
            AuthError::PermissionDenied { operation } => {
                let mut s = String::from_str("Permission denied: ");
                s.append(operation.as_str());
                s
            },
            AuthError::TokenExpired => {
                let mut s = String::from_str("Authentication token expired");
                s
            },
            AuthError::MethodNotSupported { method } => {
                let mut s = String::from_str("Authentication method not supported: ");
                s.append(method.as_str());
                s
            },
        }
    }
}

/// Errors of the daemon.
#[derive(Debug)]
pub enum DaemonError {
    /// The daemon is not running.
    NotRunning,
    /// A daemon is running already.
    AlreadyRunning { pid: u32 },
    /// The daemon socket failed.
    SocketError { reason: String },
    /// Too many clients are connected.
    ClientLimitReached { limit: u32 },
    /// The daemon is shutting down.
    ShuttingDown,
}

impl DaemonError {
    /// The message that describes the error.
    pub open spec fn text(&self) -> Seq<char> {
        match self {
            DaemonError::NotRunning => "Daemon not running"@,
            DaemonError::AlreadyRunning { pid } => "Daemon already running with PID: "@ + decimal(*pid as nat),
            DaemonError::SocketError { reason } => "Daemon socket error: "@ + reason@,
            DaemonError::ClientLimitReached { limit } => "Maximum client connections reached: "@ + decimal(*limit as nat),
            DaemonError::ShuttingDown => "Daemon is shutting down"@,
        }
    }

    /// Renders the message that describes the error.
    pub fn to_string(&self) -> (r: String)
        ensures
            r@ == self.text(),
    {
        match self {
            DaemonError::NotRunning => {
                let mut s = String::from_str("Daemon not running");
                s
            },
            DaemonError::AlreadyRunning { pid } => {
                let mut s = String::from_str("Daemon already running with PID: ");
                let d_pid = u64_to_decimal(*pid as u64);
                s.append(d_pid.as_str());
                s
            },
            DaemonError::SocketError { reason } => {
                let mut s = String::from_str("Daemon socket error: ");
                s.append(reason.as_str());
                s
            },
            DaemonError::ClientLimitReached { limit } => {
                let mut s = String::from_str("Maximum client connections reached: ");
                let d_limit = u64_to_decimal(*limit as u64);
                s.append(d_limit.as_str());
                s
            },
            DaemonError::ShuttingDown => {
                let mut s = String::from_str("Daemon is shutting down");
                s
            },
        }
    }
}


} // verus!
