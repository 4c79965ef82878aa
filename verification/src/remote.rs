//! The remote server's handling of client requests: polling for buffered items, the clipboard,
//! the browser, and the bookkeeping of forwarded connections. The network work that some
//! requests need is named in the step handed back and carried out by the caller.
use vstd::prelude::*;

use crate::browser::{allowed_scheme, open_url, parsed_scheme};
use crate::clipboard::{get_clipboard, set_clipboard, ClipboardStore};
use crate::error::YuhaError;
use crate::keyed::KeyedList;
use crate::protocol::{ProtocolRequest, ProtocolResponse, ResponseBuffer, ResponseItem};
use crate::text::{concat2, concat4, decimal, u64_to_decimal};

verus! {

/// Starts the remote side; there is nothing to prepare.
pub fn init() -> (r: Result<(), YuhaError>)
    ensures
        r is Ok,
{
    Ok(())
}

/// What handling a request comes to.
#[derive(Debug)]
pub enum RequestStep {
    /// Send this response.
    Respond(ProtocolResponse),
    /// Nothing is buffered: wait for data (up to the long-polling timeout), then answer with
    /// `poll_after_wait`.
    WaitForData,
    /// Listen on the local port and forward its connections to the remote address, then answer
    /// with `bind_outcome`.
    BindListener { local_port: u16, remote_host: String, remote_port: u16 },
    /// Send the data to the open connection, then answer with `send_outcome`.
    SendData { connection_id: u32, data: Vec<u8> },
}

/// Whether a response is an error with a message.
pub open spec fn is_error_response(r: ProtocolResponse, message: Seq<char>) -> bool {
    r matches ProtocolResponse::Error { message: m } && m@ == message
}

/// The items that report connections closed, in order.
pub open spec fn close_items(ids: Seq<u32>) -> Seq<ResponseItem> {
    ids.map_values(|id: u32| ResponseItem::CloseConnection { connection_id: id })
}

/// The state the remote server keeps: the items buffered for the client, the forwarded
/// connections that are open (with their local ports), and the next connection identifier.
#[derive(Debug)]
pub struct RemoteServer {
    response_buffer: ResponseBuffer,
    active_connections: KeyedList<u32, u16>,
    next_connection_id: u32,
}

impl RemoteServer {
    /// The items buffered for the client, oldest first.
    pub closed spec fn pending(&self) -> Seq<ResponseItem> {
        self.response_buffer.pending_items()
    }

    /// The open forwarded connections, with their local ports.
    pub closed spec fn connections(&self) -> Map<u32, u16> {
        self.active_connections@
    }

    /// The open forwarded connections, in the order they were opened.
    pub closed spec fn connection_order(&self) -> Seq<u32> {
        self.active_connections.key_seq()
    }

    /// The identifier the next connection gets.
    pub closed spec fn next_id(&self) -> u32 {
        self.next_connection_id
    }

    /// A server with nothing buffered and no connections; the first connection gets 1.
    pub fn new() -> (r: Self)
        ensures
            r.pending() == Seq::<ResponseItem>::empty(),
            r.connections() == Map::<u32, u16>::empty(),
            r.next_id() == 1,
    {
        RemoteServer {
            response_buffer: ResponseBuffer::new(),
            active_connections: KeyedList::new(),
            next_connection_id: 1,
        }
    }

    /// The identifier the next accepted connection gets.
    pub fn next_connection_id(&self) -> (r: u32)
        ensures
            r == self.next_id(),
    {
        self.next_connection_id
    }

    /// Whether items are buffered.
    pub fn has_data(&self) -> (r: bool)
        ensures
            r == (self.pending().len() > 0),
    {
        self.response_buffer.has_data()
    }

    /// Handles a request against the clipboard.
    pub fn handle_request(&mut self, request: ProtocolRequest, clipboard: &mut ClipboardStore) -> (r:
        RequestStep)
        ensures
            final(self).next_id() == old(self).next_id(),
            match request {
                ProtocolRequest::PollData => final(clipboard)@ == old(clipboard)@ && final(self).connections()
                    == old(self).connections() && final(self).pending() == Seq::<ResponseItem>::empty() && if old(self).pending().len() == 0 {
                    r is WaitForData
                } else {
                    r matches RequestStep::Respond(ProtocolResponse::Data { items }) && items@ == old(self).pending()
                },
                ProtocolRequest::StartPortForward { local_port, remote_host, remote_port } => final(clipboard)@ == old(clipboard)@ && final(self).connections() == old(self).connections() && final(self).pending()
                    == old(self).pending() && r == (RequestStep::BindListener {
                    local_port,
                    remote_host,
                    remote_port,
                }),
                ProtocolRequest::StopPortForward { .. } => final(clipboard)@ == old(clipboard)@ && final(self).connections()
                    == Map::<u32, u16>::empty() && final(self).pending() == old(self).pending() + close_items(
                    old(self).connection_order(),
                ) && (r matches RequestStep::Respond(resp) && resp is Success),
                ProtocolRequest::PortForwardData { connection_id, data } => final(clipboard)@ == old(clipboard)@
                    && final(self).connections() == old(self).connections() && final(self).pending() == old(self).pending() && if old(self).connections().contains_key(connection_id) {
                    r == (RequestStep::SendData { connection_id, data })
                } else {
                    r matches RequestStep::Respond(resp) && resp is Success
                },
                ProtocolRequest::GetClipboard => final(clipboard)@ == old(clipboard)@ && final(self).connections()
                    == old(self).connections() && final(self).pending() == Seq::<ResponseItem>::empty() && (
                r matches RequestStep::Respond(ProtocolResponse::Data { items }) && items@.len() == old(self).pending().len() + 1 && items@.drop_last() == old(self).pending() && (items@.last() matches ResponseItem::ClipboardContent {
                    content,
                } && content@ == old(clipboard)@)),
                ProtocolRequest::SetClipboard { content } => final(clipboard)@ == content@ && final(self).connections()
                    == old(self).connections() && final(self).pending() == old(self).pending() && (
                r matches RequestStep::Respond(resp) && resp is Success),
                ProtocolRequest::OpenBrowser { url } => final(clipboard)@ == old(clipboard)@ && final(self).connections()
                    == old(self).connections() && final(self).pending() == old(self).pending() && (
                r matches RequestStep::Respond(resp) && match parsed_scheme(url@) {
                    Some(s) if allowed_scheme(s) => resp is Success,
                    _ => is_error_response(resp, "Failed to open browser: "@ + "Invalid URL format: "@ + url@),
                }),
            },
    {
        match request {
            ProtocolRequest::PollData => {
                let items = self.response_buffer.take_items();
                if items.len() == 0 {
                    RequestStep::WaitForData
                } else {
                    RequestStep::Respond(ProtocolResponse::Data { items })
                }
            },
            ProtocolRequest::StartPortForward { local_port, remote_host, remote_port } => {
                RequestStep::BindListener { local_port, remote_host, remote_port }
            },
            ProtocolRequest::StopPortForward { local_port: _ } => {
                self.close_all_connections();
                RequestStep::Respond(ProtocolResponse::Success)
            },
            ProtocolRequest::PortForwardData { connection_id, data } => {
                if self.active_connections.contains_key(&connection_id) {
                    RequestStep::SendData { connection_id, data }
                } else {
                    RequestStep::Respond(ProtocolResponse::Success)
                }
            },
            ProtocolRequest::GetClipboard => match get_clipboard(clipboard) {
                Ok(content) => {
                    self.response_buffer.add_clipboard_content(content);
                    let items = self.response_buffer.take_items();
                    RequestStep::Respond(ProtocolResponse::Data { items })
                },
                Err(e) => {
                    let text = e.to_string();
                    RequestStep::Respond(
                        ProtocolResponse::Error { message: concat2("Failed to get clipboard: ", text.as_str()) },
                    )
                },
            },
            ProtocolRequest::SetClipboard { content } => match set_clipboard(clipboard, content.as_str()) {
                Ok(()) => RequestStep::Respond(ProtocolResponse::Success),
                Err(e) => {
                    let text = e.to_string();
                    RequestStep::Respond(
                        ProtocolResponse::Error { message: concat2("Failed to set clipboard: ", text.as_str()) },
                    )
                },
            },
            ProtocolRequest::OpenBrowser { url } => {
                let opened = open_url(url.as_str());
                match opened {
                    Ok(()) => RequestStep::Respond(ProtocolResponse::Success),
                    Err(e) => {
                        let text = e.to_string();
                        let message = concat2("Failed to open browser: ", text.as_str());
                        proof {
                            assert(message@ =~= "Failed to open browser: "@ + "Invalid URL format: "@ + url@);
                        }
                        RequestStep::Respond(ProtocolResponse::Error { message })
                    },
                }
            },
        }
    }

    /// Closes every open connection, reporting each as closed in the order they are kept.
    fn close_all_connections(&mut self)
        ensures
            final(self).connections() == Map::<u32, u16>::empty(),
            final(self).pending() == old(self).pending() + close_items(old(self).connection_order()),
            final(self).next_id() == old(self).next_id(),
    {
        let ghost order = self.active_connections.key_seq();
        let ids = self.active_connections.keys();
        assert(order == old(self).connection_order());
        let mut i: usize = 0;
        while i < ids.len()
            invariant
                i <= ids@.len(),
                ids@.len() == order.len(),
                forall|j: int| 0 <= j < ids@.len() ==> #[trigger] ids@[j] == order[j],
                order == old(self).connection_order(),
                self.next_connection_id == old(self).next_connection_id,
                self.response_buffer.pending_items() == old(self).pending() + close_items(order.take(i as int)),
            decreases ids@.len() - i,
        {
            let id = ids[i];
            self.active_connections.remove(&id);
            self.response_buffer.add_close_connection(id);
            proof {
                assert(close_items(order.take(i + 1)) =~= close_items(order.take(i as int)).push(
                    ResponseItem::CloseConnection { connection_id: id },
                ));
                assert(self.response_buffer.pending_items() =~= old(self).pending() + close_items(order.take(i + 1)));
            }
            i = i + 1;
        }
        proof {
            assert(order.take(ids@.len() as int) =~= order);
        }
        self.active_connections.clear();
    }

    /// The answer to a poll after waiting: whatever was buffered meanwhile, possibly nothing.
    pub fn poll_after_wait(&mut self) -> (r: ProtocolResponse)
        ensures
            r matches ProtocolResponse::Data { items } && items@ == old(self).pending(),
            final(self).pending() == Seq::<ResponseItem>::empty(),
            final(self).connections() == old(self).connections(),
            final(self).next_id() == old(self).next_id(),
    {
        let items = self.response_buffer.take_items();
        ProtocolResponse::Data { items }
    }

    /// The answer once listening on a local port started, or failed to.
    pub fn bind_outcome(local_port: u16, bound: Result<(), String>) -> (r: ProtocolResponse)
        ensures
            match bound {
                Ok(()) => r is Success,
                Err(e) => is_error_response(
                    r,
                    "Failed to bind to "@ + "0.0.0.0:"@ + decimal(local_port as nat) + ": "@ + e@,
                ),
            },
    {
        match bound {
            Ok(()) => ProtocolResponse::Success,
            Err(e) => {
                let port = u64_to_decimal(local_port as u64);
                let address = concat2("0.0.0.0:", port.as_str());
                let message = concat4("Failed to bind to ", address.as_str(), ": ", e.as_str());
                proof {
                    assert(message@ =~= "Failed to bind to "@ + "0.0.0.0:"@ + decimal(local_port as nat) + ": "@
                        + e@);
                }
                ProtocolResponse::Error { message }
            },
        }
    }

    /// The answer once data was sent to a connection, or failed to be.
    pub fn send_outcome(sent: Result<(), String>) -> (r: ProtocolResponse)
        ensures
            match sent {
                Ok(()) => r is Success,
                Err(e) => is_error_response(r, "Failed to send data: "@ + e@),
            },
    {
        match sent {
            Ok(()) => ProtocolResponse::Success,
            Err(e) => ProtocolResponse::Error { message: concat2("Failed to send data: ", e.as_str()) },
        }
    }

    /// A connection was accepted on a forwarded local port: it gets the next identifier and is
    /// reported to the client.
    pub fn accept_connection(&mut self, local_port: u16) -> (r: u32)
        requires
            old(self).next_id() < u32::MAX,
        ensures
            r == old(self).next_id(),
            final(self).next_id() == old(self).next_id() + 1,
            final(self).connections() == old(self).connections(),
            final(self).pending() == old(self).pending().push(
                ResponseItem::NewConnection { connection_id: r, local_port },
            ),
    {
        let id = self.next_connection_id;
        self.next_connection_id = id + 1;
        self.response_buffer.add_new_connection(id, local_port);
        id
    }

    /// The connection reached its target and is open.
    pub fn connection_established(&mut self, connection_id: u32, local_port: u16)
        ensures
            final(self).connections() == old(self).connections().insert(connection_id, local_port),
            final(self).pending() == old(self).pending(),
            final(self).next_id() == old(self).next_id(),
    {
        self.active_connections.insert(connection_id, local_port);
    }

    /// Data arrived from a connection's target; it is buffered for the client.
    pub fn data_from_target(&mut self, connection_id: u32, data: Vec<u8>)
        ensures
            final(self).pending() == old(self).pending().push(
                ResponseItem::PortForwardData { connection_id, data },
            ),
            final(self).connections() == old(self).connections(),
            final(self).next_id() == old(self).next_id(),
    {
        self.response_buffer.add_port_forward_data(connection_id, data);
    }

    /// A connection ended, or never reached its target: it is closed and reported so.
    pub fn connection_closed(&mut self, connection_id: u32)
        ensures
            final(self).connections() == old(self).connections().remove(connection_id),
            final(self).pending() == old(self).pending().push(
                ResponseItem::CloseConnection { connection_id },
            ),
            final(self).next_id() == old(self).next_id(),
    {
        self.active_connections.remove(&connection_id);
        self.response_buffer.add_close_connection(connection_id);
    }

    /// A message from the shell is buffered for the client as clipboard content `IPC: ...`.
    pub fn ipc_message(&mut self, message: &str)
        ensures
            final(self).pending() == old(self).pending().push(
                ResponseItem::ClipboardContent { content: final(self).pending().last()->content },
            ),
            final(self).pending().last()->content@ == "IPC: "@ + message@,
            final(self).connections() == old(self).connections(),
            final(self).next_id() == old(self).next_id(),
    {
        self.response_buffer.add_clipboard_content(concat2("IPC: ", message));
    }
}

} // verus!
