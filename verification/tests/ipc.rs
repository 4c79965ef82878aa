use yuha::clipboard::ClipboardStore;
use yuha::ipc::{
    ack_reply, clipboard_reply, default_ipc_socket_path_on, forward_outcome, get_default_ipc_socket_path, handle_command,
    invalid_command, is_pong, status_reply, IpcClient, IpcCommand, IpcResponse, IpcStep,
};

#[test]
fn test_default_socket_path() {
    let path = get_default_ipc_socket_path();
    assert!(path.contains("yuha-remote"));
    assert_eq!(default_ipc_socket_path_on(false), "/tmp/yuha-remote.sock");
    assert_eq!(default_ipc_socket_path_on(true), r"\\.\pipe\yuha-remote");
}

#[test]
fn ping_and_status() {
    let mut clipboard = ClipboardStore::new();
    assert_eq!(handle_command(IpcCommand::Ping, &mut clipboard, false, 0), IpcStep::Reply(IpcResponse::Pong));
    let status = handle_command(IpcCommand::Status, &mut clipboard, false, 42);
    assert_eq!(
        status,
        IpcStep::Reply(IpcResponse::Status { uptime: 42, connected_clients: 0, active_port_forwards: 0 })
    );
    match status {
        IpcStep::Reply(r) => assert_eq!(status_reply(r), Ok((42, 0, 0))),
        IpcStep::Forward(_) => panic!("status is answered directly"),
    }
    assert!(is_pong(&IpcResponse::Pong));
    assert!(!is_pong(&IpcResponse::Success { data: None }));
}

#[test]
fn clipboard_round_trip_through_commands() {
    let mut clipboard = ClipboardStore::new();
    let set = handle_command(IpcCommand::SetClipboard { content: "test content".to_string() }, &mut clipboard, true, 0);
    assert_eq!(set, IpcStep::Reply(IpcResponse::Success { data: None }));
    let get = handle_command(IpcCommand::GetClipboard, &mut clipboard, true, 0);
    match get {
        IpcStep::Reply(r) => assert_eq!(clipboard_reply(r), Ok("test content".to_string())),
        IpcStep::Forward(_) => panic!("clipboard reads are answered directly"),
    }
}

#[test]
fn messages_to_the_client_need_a_client() {
    let mut clipboard = ClipboardStore::new();
    let without = handle_command(IpcCommand::SendToClient { message: "m".to_string() }, &mut clipboard, false, 0);
    assert_eq!(without, IpcStep::Reply(IpcResponse::Error { message: "No client connected".to_string() }));
    let with = handle_command(IpcCommand::SendToClient { message: "m".to_string() }, &mut clipboard, true, 0);
    assert_eq!(with, IpcStep::Forward("m".to_string()));
    assert_eq!(forward_outcome(Ok(())), IpcResponse::Success { data: None });
    assert_eq!(
        forward_outcome(Err("closed".to_string())),
        IpcResponse::Error { message: "Failed to send to client: closed".to_string() }
    );
}

#[test]
fn browser_commands_check_the_url() {
    let mut clipboard = ClipboardStore::new();
    let ok = handle_command(IpcCommand::OpenBrowser { url: "https://example.com".to_string() }, &mut clipboard, true, 0);
    assert_eq!(ok, IpcStep::Reply(IpcResponse::Success { data: None }));
    let bad = handle_command(IpcCommand::OpenBrowser { url: "not-a-url".to_string() }, &mut clipboard, true, 0);
    assert_eq!(
        bad,
        IpcStep::Reply(IpcResponse::Error {
            message: "Failed to open browser: Invalid URL format: not-a-url".to_string()
        })
    );
}

#[test]
fn replies_are_read_back() {
    assert_eq!(ack_reply(IpcResponse::Success { data: Some("x".to_string()) }), Ok(()));
    assert_eq!(ack_reply(IpcResponse::Error { message: "no".to_string() }), Err("no".to_string()));
    assert_eq!(ack_reply(IpcResponse::Pong), Err("Unexpected response".to_string()));
    assert_eq!(clipboard_reply(IpcResponse::Success { data: None }), Err("Unexpected response".to_string()));
    assert_eq!(status_reply(IpcResponse::Pong), Err("Unexpected response".to_string()));
    assert_eq!(
        invalid_command("eof"),
        IpcResponse::Error { message: "Invalid command format: eof".to_string() }
    );
}

#[test]
fn client_keeps_its_socket() {
    let client = IpcClient::new("/tmp/test.sock".to_string());
    assert_eq!(client.socket_path(), "/tmp/test.sock");
}
