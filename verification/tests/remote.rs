use yuha::clipboard::{get_clipboard, ClipboardStore};
use yuha::protocol::{ProtocolRequest, ProtocolResponse, ResponseItem};
use yuha::remote::{init, RemoteServer, RequestStep};

#[test]
fn initialisation_succeeds() {
    assert!(init().is_ok());
}

#[test]
fn poll_waits_when_nothing_is_buffered() {
    let mut server = RemoteServer::new();
    let mut clipboard = ClipboardStore::new();
    assert!(matches!(server.handle_request(ProtocolRequest::PollData, &mut clipboard), RequestStep::WaitForData));
    assert!(matches!(server.poll_after_wait(), ProtocolResponse::Data { items } if items.is_empty()));
}

#[test]
fn forwarded_connections_are_reported_and_polled() {
    let mut server = RemoteServer::new();
    let mut clipboard = ClipboardStore::new();
    let step = server.handle_request(
        ProtocolRequest::StartPortForward { local_port: 8080, remote_host: "localhost".to_string(), remote_port: 80 },
        &mut clipboard,
    );
    assert!(matches!(step, RequestStep::BindListener { local_port: 8080, remote_port: 80, .. }));
    assert!(matches!(RemoteServer::bind_outcome(8080, Ok(())), ProtocolResponse::Success));
    let id = server.accept_connection(8080);
    assert_eq!(id, 1);
    assert_eq!(server.accept_connection(8080), 2);
    server.connection_established(id, 8080);
    server.data_from_target(id, vec![9, 9]);
    let step = server.handle_request(ProtocolRequest::PortForwardData { connection_id: id, data: vec![1] }, &mut clipboard);
    assert!(matches!(step, RequestStep::SendData { connection_id: 1, .. }));
    let unknown = server.handle_request(ProtocolRequest::PortForwardData { connection_id: 77, data: vec![1] }, &mut clipboard);
    assert!(matches!(unknown, RequestStep::Respond(ProtocolResponse::Success)));
    assert!(server.has_data());
    match server.handle_request(ProtocolRequest::PollData, &mut clipboard) {
        RequestStep::Respond(ProtocolResponse::Data { items }) => {
            assert_eq!(items.len(), 3);
            assert!(matches!(items[0], ResponseItem::NewConnection { connection_id: 1, local_port: 8080 }));
            assert!(matches!(items[1], ResponseItem::NewConnection { connection_id: 2, local_port: 8080 }));
            assert!(matches!(&items[2], ResponseItem::PortForwardData { connection_id: 1, data } if data == &vec![9, 9]));
        }
        _ => panic!("buffered items are handed out"),
    }
    server.connection_closed(id);
    let step = server.handle_request(ProtocolRequest::PortForwardData { connection_id: id, data: vec![1] }, &mut clipboard);
    assert!(matches!(step, RequestStep::Respond(ProtocolResponse::Success)));
}

#[test]
fn stopping_closes_every_connection() {
    let mut server = RemoteServer::new();
    let mut clipboard = ClipboardStore::new();
    server.connection_established(1, 8080);
    server.connection_established(2, 8080);
    let step = server.handle_request(ProtocolRequest::StopPortForward { local_port: 8080 }, &mut clipboard);
    assert!(matches!(step, RequestStep::Respond(ProtocolResponse::Success)));
    let forwarded = server.handle_request(ProtocolRequest::PortForwardData { connection_id: 1, data: vec![] }, &mut clipboard);
    assert!(matches!(forwarded, RequestStep::Respond(ProtocolResponse::Success)));
    match server.poll_after_wait() {
        ProtocolResponse::Data { items } => {
            assert_eq!(items.len(), 2);
            assert!(matches!(items[0], ResponseItem::CloseConnection { connection_id: 1 }));
        }
        _ => panic!("polling hands out data"),
    }
}

#[test]
fn clipboard_requests() {
    let mut server = RemoteServer::new();
    let mut clipboard = ClipboardStore::new();
    let set = server.handle_request(ProtocolRequest::SetClipboard { content: "abc".to_string() }, &mut clipboard);
    assert!(matches!(set, RequestStep::Respond(ProtocolResponse::Success)));
    assert_eq!(get_clipboard(&clipboard).unwrap(), "abc");
    server.ipc_message("hello");
    match server.handle_request(ProtocolRequest::GetClipboard, &mut clipboard) {
        RequestStep::Respond(ProtocolResponse::Data { items }) => {
            assert_eq!(items.len(), 2);
            assert!(matches!(&items[0], ResponseItem::ClipboardContent { content } if content == "IPC: hello"));
            assert!(matches!(&items[1], ResponseItem::ClipboardContent { content } if content == "abc"));
        }
        _ => panic!("the clipboard is answered with data"),
    }
}

#[test]
fn browser_requests_and_outcomes() {
    let mut server = RemoteServer::new();
    let mut clipboard = ClipboardStore::new();
    let bad = server.handle_request(ProtocolRequest::OpenBrowser { url: "javascript:alert(1)".to_string() }, &mut clipboard);
    assert!(matches!(bad, RequestStep::Respond(ProtocolResponse::Error { message })
        if message == "Failed to open browser: Invalid URL format: javascript:alert(1)"));
    let good = server.handle_request(ProtocolRequest::OpenBrowser { url: "http://localhost:8080".to_string() }, &mut clipboard);
    assert!(matches!(good, RequestStep::Respond(ProtocolResponse::Success)));
    assert!(matches!(RemoteServer::bind_outcome(80, Err("in use".to_string())),
        ProtocolResponse::Error { message } if message == "Failed to bind to 0.0.0.0:80: in use"));
    assert!(matches!(RemoteServer::send_outcome(Err("reset".to_string())),
        ProtocolResponse::Error { message } if message == "Failed to send data: reset"));
}
