//! Messages between the command line and the daemon that manages sessions.
use vstd::prelude::*;

use crate::keyed::KeyedList;
use crate::session::SessionId;
use crate::transport::TransportConfig;

verus! {

/// A request to the daemon.
#[derive(Debug, Clone)]
pub enum DaemonRequest {
    /// Whether the daemon is alive.
    Ping,
    /// Create a session.
    CreateSession {
        name: String,
        transport_config: TransportConfig,
        tags: Vec<String>,
        description: Option<String>,
    },
    /// Connect to a session, creating it where there is none.
    ConnectSession { name: String, transport_config: TransportConfig },
    /// Disconnect from a session.
    DisconnectSession { session_id: SessionId },
    /// List the sessions.
    ListSessions,
    /// Details of a session.
    GetSessionInfo { session_id: SessionId },
    /// Run a command on a session.
    ExecuteCommand { session_id: SessionId, command: DaemonCommand },
    /// Shut the daemon down.
    Shutdown,
}

/// A command run on a session.
#[derive(Debug, Clone)]
pub enum DaemonCommand {
    /// Read the clipboard.
    GetClipboard,
    /// Write the clipboard.
    SetClipboard { content: String },
    /// Open a URL in the browser.
    OpenBrowser { url: String },
    /// Start forwarding a port.
    StartPortForward { local_port: u16, remote_host: String, remote_port: u16 },
    /// Stop forwarding a port.
    StopPortForward { local_port: u16 },
    /// Data for a forwarded connection.
    PortForwardData { connection_id: u32, data: Vec<u8> },
}

/// A response of the daemon.
#[derive(Debug, Clone)]
pub enum DaemonResponse {
    /// The answer to a ping.
    Pong,
    /// A session was created or connected to.
    SessionCreated { session_id: SessionId, reused: bool },
    /// A session was disconnected.
    SessionDisconnected,
    /// The sessions.
    SessionList { sessions: Vec<SessionSummary> },
    /// Details of a session.
    SessionInfo { session: Box<SessionDetails> },
    /// A command succeeded.
    CommandSuccess { result: CommandResult },
    /// The daemon is shutting down.
    ShuttingDown,
    /// An error.
    Error { code: ErrorCode, message: String },
}

/// A summary of a session.
#[derive(Debug, Clone)]
pub struct SessionSummary {
    pub id: SessionId,
    pub name: String,
    pub connection_key: String,
    pub status: String,
    pub created_at: String,
    pub last_used: String,
    pub use_count: u64,
}

/// Details of a session.
#[derive(Debug, Clone)]
pub struct SessionDetails {
    pub id: SessionId,
    pub name: String,
    pub transport_config: TransportConfig,
    pub status: String,
    pub created_at: String,
    pub last_used: String,
    pub use_count: u64,
    pub tags: Vec<String>,
    pub description: Option<String>,
    pub active_port_forwards: Vec<PortForwardInfo>,
}

/// A port being forwarded.
#[derive(Debug, Clone)]
pub struct PortForwardInfo {
    pub local_port: u16,
    pub remote_host: String,
    pub remote_port: u16,
    pub active_connections: u32,
}

/// What a command did.
#[derive(Debug, Clone)]
pub enum CommandResult {
    /// The clipboard's content.
    ClipboardContent { content: String },
    /// The clipboard was written.
    ClipboardSet,
    /// The browser was opened.
    BrowserOpened,
    /// Forwarding started.
    PortForwardStarted,
    /// Forwarding stopped.
    PortForwardStopped,
    /// Data was sent.
    PortForwardDataSent,
}

/// Kinds of daemon errors.
#[derive(Debug, Clone, Copy, PartialEq, Eq, Structural)]
pub enum ErrorCode {
    SessionNotFound,
    SessionAlreadyExists,
    ConnectionFailed,
    CommandFailed,
    InvalidRequest,
    ShuttingDown,
    InternalError,
    MaxSessionsReached,
    AuthenticationFailed,
}

/// Settings of the daemon.
#[derive(Debug, Clone)]
pub struct DaemonConfig {
    /// The Unix socket or pipe it listens on.
    pub socket_path: String,
    /// The most clients at once.
    pub max_clients: u32,
    /// Whether sessions are pooled.
    pub enable_session_pooling: bool,
    /// Session idle timeout in seconds.
    pub session_idle_timeout: u64,
    /// Log file.
    pub log_file: Option<String>,
    /// PID file.
    pub pid_file: Option<String>,
    /// Further options.
    pub options: KeyedList<String, String>,
}

/// The default daemon settings: `/tmp/yuha.sock`, 10 clients, pooling on, 300 s idle timeout,
/// no files or options.
pub open spec fn is_default_daemon_config(c: DaemonConfig) -> bool {
    &&& c.socket_path@ == "/tmp/yuha.sock"@
    &&& c.max_clients == 10
    &&& c.enable_session_pooling
    &&& c.session_idle_timeout == 300
    &&& c.log_file.is_none()
    &&& c.pid_file.is_none()
    &&& c.options@ == Map::<Seq<char>, String>::empty()
}

impl Default for DaemonConfig {
    fn default() -> (r: Self)
        ensures
            is_default_daemon_config(r),
    {
        DaemonConfig {
            socket_path: String::from_str("/tmp/yuha.sock"),
            max_clients: 10,
            enable_session_pooling: true,
            session_idle_timeout: 300,
            log_file: None,
            pid_file: None,
            options: KeyedList::new(),
        }
    }
}

} // verus!
