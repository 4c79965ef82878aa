//! Buffers that batch protocol messages until they are taken.
use vstd::prelude::*;

use super::ResponseItem;
use crate::keyed::KeyedList;

verus! {

/// A buffer that accumulates items until they are taken.
pub trait ProtocolBuffer<T>: Sized {
    /// The items held, oldest first.
    spec fn buffered(&self) -> Seq<T>;

    /// Whether an item can be added.
    spec fn can_add(&self) -> bool;

    /// Adds an item; it becomes the newest.
    fn add_item(&mut self, item: T)
        requires
            old(self).can_add(),
        ensures
            final(self).can_add(),
            final(self).buffered().len() > 0,
            final(self).buffered().last() == item,
    ;

    /// Whether the buffer holds items.
    fn has_data(&self) -> (r: bool)
        ensures
            r == (self.buffered().len() > 0),
    ;

    /// Takes every item, oldest first; the buffer holds none after.
    fn take_items(&mut self) -> (r: Vec<T>)
        ensures
            r@ == old(self).buffered(),
            final(self).buffered() == Seq::<T>::empty(),
            old(self).can_add() ==> final(self).can_add(),
    ;

    /// Empties the buffer.
    fn clear(&mut self)
        ensures
            final(self).buffered() == Seq::<T>::empty(),
            old(self).can_add() ==> final(self).can_add(),
    ;
}

/// The response buffer of the simple protocol, which also remembers the connections it
/// reported open and closed.
#[derive(Debug)]
pub struct SimpleResponseBuffer {
    items: Vec<ResponseItem>,
    pending_connections: KeyedList<u32, u16>,
    closed_connections: Vec<u32>,
}

impl SimpleResponseBuffer {
    /// The items not yet taken, oldest first.
    pub closed spec fn pending_items(&self) -> Seq<ResponseItem> {
        self.items@
    }

    /// The open connections with their local ports.
    pub closed spec fn open_connections(&self) -> Map<u32, u16> {
        self.pending_connections@
    }

    /// The connections reported closed, in order.
    pub closed spec fn closed(&self) -> Seq<u32> {
        self.closed_connections@
    }

    /// An empty buffer.
    pub fn new() -> (r: Self)
        ensures
            r.pending_items() == Seq::<ResponseItem>::empty(),
            r.open_connections() == Map::<u32, u16>::empty(),
            r.closed() == Seq::<u32>::empty(),
    {
        SimpleResponseBuffer {
            items: Vec::new(),
            pending_connections: KeyedList::new(),
            closed_connections: Vec::new(),
        }
    }

    /// Records a new open connection on a local port and reports it.
    pub fn add_new_connection(&mut self, connection_id: u32, local_port: u16)
        ensures
            final(self).open_connections() == old(self).open_connections().insert(connection_id, local_port),
            final(self).pending_items() == old(self).pending_items().push(
                ResponseItem::NewConnection { connection_id, local_port },
            ),
            final(self).closed() == old(self).closed(),
    {
        self.pending_connections.insert(connection_id, local_port);
        self.items.push(ResponseItem::NewConnection { connection_id, local_port });
    }

    /// Records that a connection closed and reports it.
    pub fn add_close_connection(&mut self, connection_id: u32)
        ensures
            final(self).open_connections() == old(self).open_connections().remove(connection_id),
            final(self).closed() == old(self).closed().push(connection_id),
            final(self).pending_items() == old(self).pending_items().push(
                ResponseItem::CloseConnection { connection_id },
            ),
    {
        self.pending_connections.remove(&connection_id);
        self.closed_connections.push(connection_id);
        self.items.push(ResponseItem::CloseConnection { connection_id });
    }

    /// Reports data read on a forwarded connection.
    pub fn add_port_forward_data(&mut self, connection_id: u32, data: Vec<u8>)
        ensures
            final(self).pending_items() == old(self).pending_items().push(
                ResponseItem::PortForwardData { connection_id, data },
            ),
            final(self).open_connections() == old(self).open_connections(),
            final(self).closed() == old(self).closed(),
    {
        self.items.push(ResponseItem::PortForwardData { connection_id, data });
    }

    /// Reports the clipboard's content.
    pub fn add_clipboard_content(&mut self, content: String)
        ensures
            final(self).pending_items() == old(self).pending_items().push(
                ResponseItem::ClipboardContent { content },
            ),
            final(self).open_connections() == old(self).open_connections(),
            final(self).closed() == old(self).closed(),
    {
        self.items.push(ResponseItem::ClipboardContent { content });
    }

    /// Whether a connection is open.
    pub fn is_connection_active(&self, connection_id: u32) -> (r: bool)
        ensures
            r == self.open_connections().contains_key(connection_id),
    {
        self.pending_connections.contains_key(&connection_id)
    }

    /// The open connections with their local ports.
    pub fn get_pending_connections(&self) -> (r: &KeyedList<u32, u16>)
        ensures
            r@ == self.open_connections(),
    {
        &self.pending_connections
    }

    /// The connections reported closed, in order.
    pub fn get_closed_connections(&self) -> (r: &[u32])
        ensures
            r@ == self.closed(),
    {
        self.closed_connections.as_slice()
    }
}

impl ProtocolBuffer<ResponseItem> for SimpleResponseBuffer {
    open spec fn buffered(&self) -> Seq<ResponseItem> {
        self.pending_items()
    }

    open spec fn can_add(&self) -> bool {
        true
    }

    fn add_item(&mut self, item: ResponseItem)
        ensures
            final(self).pending_items() == old(self).pending_items().push(item),
            final(self).open_connections() == old(self).open_connections(),
            final(self).closed() == old(self).closed(),
    {
        self.items.push(item);
    }

    fn has_data(&self) -> (r: bool) {
        self.items.len() > 0
    }

    fn take_items(&mut self) -> (r: Vec<ResponseItem>)
        ensures
            final(self).open_connections() == old(self).open_connections(),
            final(self).closed() == old(self).closed(),
    {
        let mut taken: Vec<ResponseItem> = Vec::new();
        std::mem::swap(&mut taken, &mut self.items);
        taken
    }

    /// Forgets the items and the connections reported open and closed.
    fn clear(&mut self)
        ensures
            final(self).open_connections() == Map::<u32, u16>::empty(),
            final(self).closed() == Seq::<u32>::empty(),
    {
        self.items.clear();
        self.pending_connections.clear();
        self.closed_connections.clear();
    }
}

impl Default for SimpleResponseBuffer {
    fn default() -> (r: Self)
        ensures
            r.pending_items() == Seq::<ResponseItem>::empty(),
            r.open_connections() == Map::<u32, u16>::empty(),
            r.closed() == Seq::<u32>::empty(),
    {
        Self::new()
    }
}

/// A buffer of messages of any type, bounded or not; a bounded buffer drops its oldest item to
/// make room for a new one.
#[derive(Debug, Clone)]
pub struct MessageBuffer<T> {
    items: Vec<T>,
    max_capacity: Option<usize>,
}

impl<T> MessageBuffer<T> {
    /// The items held, oldest first.
    pub closed spec fn held(&self) -> Seq<T> {
        self.items@
    }

    /// The capacity, if the buffer is bounded.
    pub closed spec fn capacity(&self) -> Option<usize> {
        self.max_capacity
    }

    /// Whether the buffer is within its capacity.
    pub open spec fn within_capacity(&self) -> bool {
        self.capacity() matches Some(c) ==> self.held().len() <= c
    }

    /// An empty unbounded buffer.
    pub fn new() -> (r: Self)
        ensures
            r.held() == Seq::<T>::empty(),
            r.capacity() is None,
    {
        MessageBuffer { items: Vec::new(), max_capacity: None }
    }

    /// An empty buffer holding at most `capacity` items.
    pub fn with_capacity(capacity: usize) -> (r: Self)
        ensures
            r.held() == Seq::<T>::empty(),
            r.capacity() == Some(capacity),
    {
        MessageBuffer { items: Vec::with_capacity(capacity), max_capacity: Some(capacity) }
    }

    /// The number of items held.
    pub fn len(&self) -> (r: usize)
        ensures
            r == self.held().len(),
    {
        self.items.len()
    }

    /// Whether the buffer is empty.
    pub fn is_empty(&self) -> (r: bool)
        ensures
            r == (self.held().len() == 0),
    {
        self.items.len() == 0
    }

    /// Whether a bounded buffer holds as many items as its capacity.
    pub fn is_full(&self) -> (r: bool)
        ensures
            r == (self.capacity() matches Some(c) && self.held().len() >= c),
    {
        match self.max_capacity {
            Some(cap) => self.items.len() >= cap,
            None => false,
        }
    }
}

impl<T> ProtocolBuffer<T> for MessageBuffer<T> {
    open spec fn buffered(&self) -> Seq<T> {
        self.held()
    }

    /// A buffer bounded to 0 items cannot take one.
    open spec fn can_add(&self) -> bool {
        self.capacity() != Some(0usize)
    }

    /// Appends an item; a full bounded buffer first drops its oldest item.
    fn add_item(&mut self, item: T)
        ensures
            final(self).capacity() == old(self).capacity(),
            final(self).held() == if old(self).capacity() matches Some(c) && old(self).held().len() >= c {
                old(self).held().drop_first().push(item)
            } else {
                old(self).held().push(item)
            },
    {
        match self.max_capacity {
            Some(max_cap) => {
                if self.items.len() >= max_cap {
                    self.items.remove(0);
                }
            },
            None => {},
        }
        self.items.push(item);
    }

    fn has_data(&self) -> (r: bool) {
        self.items.len() > 0
    }

    fn take_items(&mut self) -> (r: Vec<T>)
        ensures
            final(self).capacity() == old(self).capacity(),
    {
        let mut taken: Vec<T> = Vec::new();
        std::mem::swap(&mut taken, &mut self.items);
        taken
    }

    fn clear(&mut self)
        ensures
            final(self).capacity() == old(self).capacity(),
    {
        self.items.clear();
    }
}

impl<T> Default for MessageBuffer<T> {
    fn default() -> (r: Self)
        ensures
            r.held() == Seq::<T>::empty(),
            r.capacity() is None,
    {
        Self::new()
    }
}

/// A bounded buffer never holds more than its capacity, and adding to it keeps the newest
/// items: a full buffer holds its previous items but the oldest, then the new one.
pub proof fn lemma_bounded_buffer<T>(held: Seq<T>, capacity: usize, item: T)
    requires
        held.len() <= capacity,
        capacity > 0,
    ensures
        ({
            let after = if held.len() >= capacity {
                held.drop_first().push(item)
            } else {
                held.push(item)
            };
            &&& after.len() <= capacity
            &&& after.last() == item
            &&& held.len() == capacity ==> forall|i: int|
                0 <= i < capacity - 1 ==> #[trigger] after[i] == held[i + 1]
            &&& held.len() < capacity ==> forall|i: int| 0 <= i < held.len() ==> #[trigger] after[i] == held[i]
        }),
{
}

} // verus!
