//! Messages of the port forwarding protocol, and the table of forwarded ports.
//!
//! Listening on a port and moving bytes is done by the caller; the table decides whether a
//! port may be forwarded or stopped and hands out connection identifiers.
use vstd::prelude::*;

use crate::keyed::KeyedList;
use crate::text::{concat3, decimal, u64_to_decimal};

verus! {

/// A message about forwarded ports and their connections.
#[derive(Debug, Clone, PartialEq, Eq)]
pub enum PortForwardMessage {
    /// Start forwarding a local port to a remote address.
    StartRequest { local_port: u16, remote_host: String, remote_port: u16 },
    /// Whether forwarding started.
    StartResponse { local_port: u16, success: bool, error: Option<String> },
    /// Stop forwarding a local port.
    StopRequest { local_port: u16 },
    /// Whether forwarding stopped.
    StopResponse { local_port: u16, success: bool, error: Option<String> },
    /// Data on a forwarded connection.
    Data { local_port: u16, connection_id: u32, data: Vec<u8> },
    /// A forwarded connection was opened.
    NewConnection { local_port: u16, connection_id: u32 },
    /// A forwarded connection was closed.
    CloseConnection { local_port: u16, connection_id: u32 },
}

/// A forwarded local port: where it leads, and the identifier its next connection gets.
#[derive(Debug)]
pub struct PortForward {
    /// The local port.
    pub local_port: u16,
    /// The remote host it leads to.
    pub remote_host: String,
    /// The remote port it leads to.
    pub remote_port: u16,
    /// The identifier the next connection gets.
    pub next_connection_id: u32,
}

impl PortForward {
    /// A forward of a local port to a remote address; its first connection gets 1.
    pub fn new(local_port: u16, remote_host: String, remote_port: u16) -> (r: Self)
        ensures
            r.local_port == local_port,
            r.remote_host == remote_host,
            r.remote_port == remote_port,
            r.next_connection_id == 1,
    {
        PortForward { local_port, remote_host, remote_port, next_connection_id: 1 }
    }

    /// Hands out the next connection identifier; identifiers count up from 1.
    pub fn next_connection_id(&mut self) -> (r: u32)
        requires
            old(self).next_connection_id < u32::MAX,
        ensures
            r == old(self).next_connection_id,
            final(self).next_connection_id == old(self).next_connection_id + 1,
            final(self).local_port == old(self).local_port,
            final(self).remote_host == old(self).remote_host,
            final(self).remote_port == old(self).remote_port,
    {
        let current = self.next_connection_id;
        self.next_connection_id = current + 1;
        current
    }
}

/// The message of the error when a port is already forwarded.
pub open spec fn already_forwarded(local_port: u16) -> Seq<char> {
    "Port "@ + decimal(local_port as nat) + " is already being forwarded"@
}

/// The message of the error when a port is not forwarded.
pub open spec fn not_forwarded(local_port: u16) -> Seq<char> {
    "No port forwarding found for port "@ + decimal(local_port as nat)
}

/// The table of forwarded local ports.
#[derive(Debug)]
pub struct PortForwardManager {
    forwards: KeyedList<u16, PortForward>,
}

impl PortForwardManager {
    /// The forwards, by local port.
    pub closed spec fn forwards(&self) -> Map<u16, PortForward> {
        self.forwards@
    }

    /// The local ports in the order they were forwarded.
    pub closed spec fn ports(&self) -> Seq<u16> {
        self.forwards.key_seq()
    }

    /// A table with no forwards.
    pub fn new() -> (r: Self)
        ensures
            r.forwards() == Map::<u16, PortForward>::empty(),
    {
        PortForwardManager { forwards: KeyedList::new() }
    }

    /// Whether a port may be forwarded: it must not be forwarded already.
    pub fn check_start(&self, local_port: u16) -> (r: Result<(), String>)
        ensures
            match r {
                Ok(()) => !self.forwards().contains_key(local_port),
                Err(e) => self.forwards().contains_key(local_port) && e@ == already_forwarded(local_port),
            },
    {
        if self.forwards.contains_key(&local_port) {
            let p = u64_to_decimal(local_port as u64);
            Err(concat3("Port ", p.as_str(), " is already being forwarded"))
        } else {
            Ok(())
        }
    }

    /// Records a forward once listening on its port was attempted: a port already forwarded is
    /// refused, a failure to listen is handed back, and otherwise the forward is kept.
    pub fn start_forward(
        &mut self,
        local_port: u16,
        remote_host: String,
        remote_port: u16,
        bound: Result<(), String>,
    ) -> (r: Result<(), String>)
        ensures
            old(self).forwards().contains_key(local_port) ==> (r matches Err(e) && e@ == already_forwarded(
                local_port,
            )) && final(self).forwards() == old(self).forwards(),
            !old(self).forwards().contains_key(local_port) ==> match bound {
                Ok(()) => r is Ok && final(self).forwards().dom() == old(self).forwards().dom().insert(
                    local_port,
                ) && final(self).forwards() == old(self).forwards().insert(
                    local_port,
                    final(self).forwards()[local_port],
                ) && final(self).forwards()[local_port].local_port == local_port
                    && final(self).forwards()[local_port].remote_host == remote_host
                    && final(self).forwards()[local_port].remote_port == remote_port
                    && final(self).forwards()[local_port].next_connection_id == 1,
                Err(e) => r == Err::<(), String>(e) && final(self).forwards() == old(self).forwards(),
            },
    {
        self.check_start(local_port)?;
        match bound {
            Ok(()) => {
                let forward = PortForward::new(local_port, remote_host, remote_port);
                self.forwards.insert(local_port, forward);
                Ok(())
            },
            Err(e) => Err(e),
        }
    }

    /// Stops forwarding a port; a port that is not forwarded is an error.
    pub fn stop_forward(&mut self, local_port: u16) -> (r: Result<(), String>)
        ensures
            final(self).forwards() == old(self).forwards().remove(local_port),
            match r {
                Ok(()) => old(self).forwards().contains_key(local_port),
                Err(e) => !old(self).forwards().contains_key(local_port) && e@ == not_forwarded(local_port),
            },
    {
        match self.forwards.remove(&local_port) {
            Some(_) => Ok(()),
            None => {
                let p = u64_to_decimal(local_port as u64);
                let mut message = String::from_str("No port forwarding found for port ");
                message.append(p.as_str());
                Err(message)
            },
        }
    }

    /// The forward of a port, if it is forwarded.
    pub fn get_forward(&self, local_port: u16) -> (r: Option<&PortForward>)
        ensures
            match r {
                Some(f) => self.forwards().contains_key(local_port) && *f == self.forwards()[local_port],
                None => !self.forwards().contains_key(local_port),
            },
    {
        self.forwards.get(&local_port)
    }

    /// The forwards as (local port, remote host, remote port), in the order they were made.
    pub fn list_forwards(&self) -> (r: Vec<(u16, String, u16)>)
        ensures
            r@.len() == self.forwards().len(),
            forall|i: int|
                0 <= i < r@.len() ==> {
                    let p = #[trigger] self.ports()[i];
                    &&& r@[i].0 == p
                    &&& r@[i].1@ == self.forwards()[p].remote_host@
                    &&& r@[i].2 == self.forwards()[p].remote_port
                },
    {
        let n = self.forwards.len();
        let mut out: Vec<(u16, String, u16)> = Vec::new();
        let mut i: usize = 0;
        while i < n
            invariant
                n == self.ports().len(),
                n == self.forwards().len(),
                i <= n,
                out@.len() == i,
                forall|j: int|
                    0 <= j < i ==> {
                        let p = #[trigger] self.ports()[j];
                        &&& out@[j].0 == p
                        &&& out@[j].1@ == self.forwards()[p].remote_host@
                        &&& out@[j].2 == self.forwards()[p].remote_port
                    },
            decreases n - i,
        {
            let port = *self.forwards.key_at(i);
            let forward = self.forwards.value_at(i);
            out.push((port, forward.remote_host.clone(), forward.remote_port));
            i = i + 1;
        }
        out
    }
}

impl Default for PortForwardManager {
    fn default() -> (r: Self)
        ensures
            r.forwards() == Map::<u16, PortForward>::empty(),
    {
        Self::new()
    }
}

/// Starts the port forwarding service; there is nothing to set up.
pub fn start() -> (r: Result<(), String>)
    ensures
        r is Ok,
{
    Ok(())
}

} // verus!
