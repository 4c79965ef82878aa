//! Commands that shell commands send to the running remote process, how the process answers
//! them, and how the answers are read back.
use vstd::prelude::*;

use crate::browser::{allowed_scheme, open_url, parsed_scheme};
use crate::clipboard::{get_clipboard, set_clipboard, ClipboardStore};
use crate::platform::target_is_windows;
use crate::text::concat2;

verus! {

/// A command to the remote process.
#[derive(Debug, Clone, PartialEq, Eq)]
pub enum IpcCommand {
    /// Read the clipboard.
    GetClipboard,
    /// Write the clipboard.
    SetClipboard { content: String },
    /// Open a URL in the browser.
    OpenBrowser { url: String },
    /// Pass a message on to the connected client.
    SendToClient { message: String },
    /// Report the process's status.
    Status,
    /// Whether the process is alive.
    Ping,
}

/// An answer of the remote process.
#[derive(Debug, Clone, PartialEq, Eq)]
pub enum IpcResponse {
    /// Success, with data where there is some.
    Success { data: Option<String> },
    /// Failure, with its message.
    Error { message: String },
    /// The process's status.
    Status { uptime: u64, connected_clients: u32, active_port_forwards: u32 },
    /// The answer to a ping.
    Pong,
}

/// What handling a command comes to: an answer, or a message to pass on to the client (whose
/// outcome `forward_outcome` turns into the answer).
#[derive(Debug, Clone, PartialEq, Eq)]
pub enum IpcStep {
    /// Answer with this.
    Reply(IpcResponse),
    /// Send this message to the client.
    Forward(String),
}

/// Whether an answer is a success without data.
pub open spec fn is_plain_success(r: IpcResponse) -> bool {
    r matches IpcResponse::Success { data } && data is None
}

/// Whether an answer is an error with a message.
pub open spec fn is_error_with(r: IpcResponse, message: Seq<char>) -> bool {
    r matches IpcResponse::Error { message: m } && m@ == message
}

/// Handles a command against the clipboard, given whether a client is connected and the
/// process's uptime in seconds.
pub fn handle_command(
    command: IpcCommand,
    clipboard: &mut ClipboardStore,
    client_connected: bool,
    uptime_secs: u64,
) -> (r: IpcStep)
    ensures
        match command {
            IpcCommand::GetClipboard => final(clipboard)@ == old(clipboard)@ && (r matches IpcStep::Reply(
                IpcResponse::Success { data: Some(c) },
            ) && c@ == old(clipboard)@),
            IpcCommand::SetClipboard { content } => final(clipboard)@ == content@ && (r matches IpcStep::Reply(resp)
                && is_plain_success(resp)),
            IpcCommand::OpenBrowser { url } => final(clipboard)@ == old(clipboard)@ && (r matches IpcStep::Reply(
                resp,
            ) && match parsed_scheme(url@) {
                Some(s) if allowed_scheme(s) => is_plain_success(resp),
                _ => is_error_with(resp, "Failed to open browser: "@ + "Invalid URL format: "@ + url@),
            }),
            IpcCommand::SendToClient { message } => final(clipboard)@ == old(clipboard)@ && if client_connected {
                r == IpcStep::Forward(message)
            } else {
                (r matches IpcStep::Reply(resp) && is_error_with(resp, "No client connected"@))
            },
            IpcCommand::Status => final(clipboard)@ == old(clipboard)@ && r == IpcStep::Reply(
                IpcResponse::Status {
                    uptime: uptime_secs,
                    connected_clients: if client_connected {
                        1u32
                    } else {
                        0u32
                    },
                    active_port_forwards: 0,
                },
            ),
            IpcCommand::Ping => final(clipboard)@ == old(clipboard)@ && r == IpcStep::Reply(IpcResponse::Pong),
        },
{
    match command {
        IpcCommand::GetClipboard => match get_clipboard(clipboard) {
            Ok(content) => IpcStep::Reply(IpcResponse::Success { data: Some(content) }),
            Err(e) => {
                let text = e.to_string();
                IpcStep::Reply(
                    IpcResponse::Error { message: concat2("Failed to get clipboard: ", text.as_str()) },
                )
            },
        },
        IpcCommand::SetClipboard { content } => match set_clipboard(clipboard, content.as_str()) {
            Ok(()) => IpcStep::Reply(IpcResponse::Success { data: None }),
            Err(e) => {
                let text = e.to_string();
                IpcStep::Reply(
                    IpcResponse::Error { message: concat2("Failed to set clipboard: ", text.as_str()) },
                )
            },
        },
        IpcCommand::OpenBrowser { url } => {
            let opened = open_url(url.as_str());
            match opened {
                Ok(()) => IpcStep::Reply(IpcResponse::Success { data: None }),
                Err(e) => {
                    let text = e.to_string();
                    let message = concat2("Failed to open browser: ", text.as_str());
                    proof {
                        assert(message@ =~= "Failed to open browser: "@ + "Invalid URL format: "@ + url@);
                    }
                    IpcStep::Reply(IpcResponse::Error { message })
                },
            }
        },
        IpcCommand::SendToClient { message } => {
            if client_connected {
                IpcStep::Forward(message)
            } else {
                IpcStep::Reply(IpcResponse::Error { message: String::from_str("No client connected") })
            }
        },
        IpcCommand::Status => IpcStep::Reply(
            IpcResponse::Status {
                uptime: uptime_secs,
                connected_clients: if client_connected {
                    1
                } else {
                    0
                },
                active_port_forwards: 0,
            },
        ),
        IpcCommand::Ping => IpcStep::Reply(IpcResponse::Pong),
    }
}

/// The answer once a message was passed on to the client, or failed to be.
pub fn forward_outcome(sent: Result<(), String>) -> (r: IpcResponse)
    ensures
        match sent {
            Ok(()) => is_plain_success(r),
            Err(e) => is_error_with(r, "Failed to send to client: "@ + e@),
        },
{
    match sent {
        Ok(()) => IpcResponse::Success { data: None },
        Err(e) => IpcResponse::Error { message: concat2("Failed to send to client: ", e.as_str()) },
    }
}

/// The answer to a line that is no command.
pub fn invalid_command(reason: &str) -> (r: IpcResponse)
    ensures
        is_error_with(r, "Invalid command format: "@ + reason@),
{
    IpcResponse::Error { message: concat2("Invalid command format: ", reason) }
}

/// Whether an answer says the process is alive.
pub fn is_pong(response: &IpcResponse) -> (r: bool)
    ensures
        r == (*response is Pong),
{
    match response {
        IpcResponse::Pong => true,
        _ => false,
    }
}

/// The clipboard's content from an answer to `GetClipboard`: the data of a success with data,
/// the message of an error, else an unexpected answer.
pub fn clipboard_reply(response: IpcResponse) -> (r: Result<String, String>)
    ensures
        match response {
            IpcResponse::Success { data: Some(c) } => r == Ok::<String, String>(c),
            IpcResponse::Error { message } => r == Err::<String, String>(message),
            _ => r matches Err(m) && m@ == "Unexpected response"@,
        },
{
    match response {
        IpcResponse::Success { data: Some(content) } => Ok(content),
        IpcResponse::Error { message } => Err(message),
        _ => Err(String::from_str("Unexpected response")),
    }
}

/// Whether an answer acknowledges a command: any success, the message of an error, else an
/// unexpected answer.
pub fn ack_reply(response: IpcResponse) -> (r: Result<(), String>)
    ensures
        match response {
            IpcResponse::Success { .. } => r is Ok,
            IpcResponse::Error { message } => r == Err::<(), String>(message),
            _ => r matches Err(m) && m@ == "Unexpected response"@,
        },
{
    match response {
        IpcResponse::Success { .. } => Ok(()),
        IpcResponse::Error { message } => Err(message),
        _ => Err(String::from_str("Unexpected response")),
    }
}

/// The status from an answer to `Status`: uptime, connected clients and active port forwards.
pub fn status_reply(response: IpcResponse) -> (r: Result<(u64, u32, u32), String>)
    ensures
        match response {
            IpcResponse::Status { uptime, connected_clients, active_port_forwards } => r == Ok::<
                (u64, u32, u32),
                String,
            >((uptime, connected_clients, active_port_forwards)),
            IpcResponse::Error { message } => r == Err::<(u64, u32, u32), String>(message),
            _ => r matches Err(m) && m@ == "Unexpected response"@,
        },
{
    match response {
        IpcResponse::Status { uptime, connected_clients, active_port_forwards } => Ok(
            (uptime, connected_clients, active_port_forwards),
        ),
        IpcResponse::Error { message } => Err(message),
        _ => Err(String::from_str("Unexpected response")),
    }
}

/// A client of the remote process's socket.
#[derive(Debug, Clone)]
pub struct IpcClient {
    socket_path: String,
}

impl IpcClient {
    /// The socket it talks to.
    pub closed spec fn path(&self) -> Seq<char> {
        self.socket_path@
    }

    /// A client of a socket.
    pub fn new(socket_path: String) -> (r: Self)
        ensures
            r.path() == socket_path@,
    {
        IpcClient { socket_path }
    }

    /// The socket it talks to.
    pub fn socket_path(&self) -> (r: &str)
        ensures
            r@ == self.path(),
    {
        self.socket_path.as_str()
    }
}

/// The default socket of the remote process: `/tmp/yuha-remote.sock`, or the named pipe
/// `\\.\pipe\yuha-remote` on Windows.
pub fn default_ipc_socket_path_on(windows: bool) -> (r: String)
    ensures
        !windows ==> r@ == "/tmp/yuha-remote.sock"@,
        windows ==> r@ == "\\\\.\\pipe\\yuha-remote"@,
{
    if windows {
        String::from_str("\\\\.\\pipe\\yuha-remote")
    } else {
        String::from_str("/tmp/yuha-remote.sock")
    }
}

/// The default socket of the remote process on this platform.
pub fn get_default_ipc_socket_path() -> (r: String)
    ensures
        r@ == "/tmp/yuha-remote.sock"@ || r@ == "\\\\.\\pipe\\yuha-remote"@,
{
    default_ipc_socket_path_on(target_is_windows())
}

} // verus!
