//! The request-response protocol between client and remote server, and the buffer of items
//! the server hands out when the client polls.
use vstd::prelude::*;

use crate::keyed::KeyedList;

pub mod buffer;
pub mod codec;
pub mod daemon;

verus! {

/// A request of the client.
#[derive(Debug, Clone)]
pub enum ProtocolRequest {
    /// Poll for buffered data.
    PollData,
    /// Start forwarding a local port to a remote address.
    StartPortForward { local_port: u16, remote_host: String, remote_port: u16 },
    /// Stop forwarding a local port.
    StopPortForward { local_port: u16 },
    /// Data for a forwarded connection.
    PortForwardData { connection_id: u32, data: Vec<u8> },
    /// Read the clipboard.
    GetClipboard,
    /// Write the clipboard.
    SetClipboard { content: String },
    /// Open a URL in the browser.
    OpenBrowser { url: String },
}

/// A response of the server.
#[derive(Debug, Clone)]
pub enum ProtocolResponse {
    /// Buffered data items.
    Data { items: Vec<ResponseItem> },
    /// The request succeeded.
    Success,
    /// The request failed.
    Error { message: String },
}

/// An item of data the server buffers for the client.
#[derive(Debug, Clone)]
pub enum ResponseItem {
    /// Data read on a forwarded connection.
    PortForwardData { connection_id: u32, data: Vec<u8> },
    /// A forwarded connection was opened.
    NewConnection { connection_id: u32, local_port: u16 },
    /// A forwarded connection was closed.
    CloseConnection { connection_id: u32 },
    /// The clipboard's content.
    ClipboardContent { content: String },
}

/// A request of the client, by its other name.
pub type YuhaRequest = ProtocolRequest;

/// A response of the server, by its other name.
pub type YuhaResponse = ProtocolResponse;

/// The items the server has for the client, with the connections it reported open and closed.
#[derive(Debug)]
pub struct ResponseBuffer {
    items: Vec<ResponseItem>,
    pending_connections: KeyedList<u32, u16>,
    closed_connections: Vec<u32>,
}

impl ResponseBuffer {
    /// The items not yet taken, oldest first.
    pub closed spec fn pending_items(&self) -> Seq<ResponseItem> {
        self.items@
    }

    /// The open connections with their local ports.
    pub closed spec fn open_connections(&self) -> Map<u32, u16> {
        self.pending_connections@
    }

    /// The connections reported closed, in order.
    pub closed spec fn closed(&self) -> Seq<u32> {
        self.closed_connections@
    }

    /// An empty buffer.
    pub fn new() -> (r: Self)
        ensures
            r.pending_items() == Seq::<ResponseItem>::empty(),
            r.open_connections() == Map::<u32, u16>::empty(),
            r.closed() == Seq::<u32>::empty(),
    {
        ResponseBuffer {
            items: Vec::new(),
            pending_connections: KeyedList::new(),
            closed_connections: Vec::new(),
        }
    }

    /// Appends an item.
    pub fn add_item(&mut self, item: ResponseItem)
        ensures
            final(self).pending_items() == old(self).pending_items().push(item),
            final(self).open_connections() == old(self).open_connections(),
            final(self).closed() == old(self).closed(),
    {
        self.items.push(item);
    }

    /// Records a new open connection on a local port and reports it.
    pub fn add_new_connection(&mut self, connection_id: u32, local_port: u16)
        ensures
            final(self).open_connections() == old(self).open_connections().insert(connection_id, local_port),
            final(self).pending_items() == old(self).pending_items().push(
                ResponseItem::NewConnection { connection_id, local_port },
            ),
            final(self).closed() == old(self).closed(),
    {
        self.pending_connections.insert(connection_id, local_port);
        self.add_item(ResponseItem::NewConnection { connection_id, local_port });
    }

    /// Records that a connection closed and reports it.
    pub fn add_close_connection(&mut self, connection_id: u32)
        ensures
            final(self).open_connections() == old(self).open_connections().remove(connection_id),
            final(self).closed() == old(self).closed().push(connection_id),
            final(self).pending_items() == old(self).pending_items().push(
                ResponseItem::CloseConnection { connection_id },
            ),
    {
        self.pending_connections.remove(&connection_id);
        self.closed_connections.push(connection_id);
        self.add_item(ResponseItem::CloseConnection { connection_id });
    }

    /// Reports data read on a forwarded connection.
    pub fn add_port_forward_data(&mut self, connection_id: u32, data: Vec<u8>)
        ensures
            final(self).pending_items() == old(self).pending_items().push(
                ResponseItem::PortForwardData { connection_id, data },
            ),
            final(self).open_connections() == old(self).open_connections(),
            final(self).closed() == old(self).closed(),
    {
        self.add_item(ResponseItem::PortForwardData { connection_id, data });
    }

    /// Reports the clipboard's content.
    pub fn add_clipboard_content(&mut self, content: String)
        ensures
            final(self).pending_items() == old(self).pending_items().push(
                ResponseItem::ClipboardContent { content },
            ),
            final(self).open_connections() == old(self).open_connections(),
            final(self).closed() == old(self).closed(),
    {
        self.add_item(ResponseItem::ClipboardContent { content });
    }

    /// Whether there are items to take.
    pub fn has_data(&self) -> (r: bool)
        ensures
            r == (self.pending_items().len() > 0),
    {
        self.items.len() > 0
    }

    /// Takes every item, oldest first; the buffer keeps none.
    pub fn take_items(&mut self) -> (r: Vec<ResponseItem>)
        ensures
            r@ == old(self).pending_items(),
            final(self).pending_items() == Seq::<ResponseItem>::empty(),
            final(self).open_connections() == old(self).open_connections(),
            final(self).closed() == old(self).closed(),
    {
        let mut taken: Vec<ResponseItem> = Vec::new();
        std::mem::swap(&mut taken, &mut self.items);
        taken
    }

    /// Whether a connection is open.
    pub fn is_connection_active(&self, connection_id: u32) -> (r: bool)
        ensures
            r == self.open_connections().contains_key(connection_id),
    {
        self.pending_connections.contains_key(&connection_id)
    }
}

impl Default for ResponseBuffer {
    fn default() -> (r: Self)
        ensures
            r.pending_items() == Seq::<ResponseItem>::empty(),
            r.open_connections() == Map::<u32, u16>::empty(),
            r.closed() == Seq::<u32>::empty(),
    {
        Self::new()
    }
}

/// A connection reported open is active until it is reported closed, and a connection
/// reported closed is no longer active.
pub proof fn lemma_connection_activity(open: Map<u32, u16>, id: u32, port: u16, other: u32)
    requires
        other != id,
    ensures
        open.insert(id, port).contains_key(id),
        !open.remove(id).contains_key(id),
        open.insert(id, port).contains_key(other) == open.contains_key(other),
        open.remove(id).contains_key(other) == open.contains_key(other),
{
}

} // verus!
