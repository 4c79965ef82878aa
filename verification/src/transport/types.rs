//! Transport kinds, connection states and transport capabilities.
use vstd::prelude::*;

use crate::error::TransportError;
use crate::keyed::MapKey;
use crate::text::{lowercase, str_eq, to_lowercase, concat2};

verus! {

/// The kinds of transport.
#[derive(Debug, Clone, Copy, PartialEq, Eq, Structural, Hash)]
pub enum TransportType {
    /// SSH connection to a remote host.
    Ssh,
    /// A local process.
    Local,
    /// A direct TCP connection.
    Tcp,
    /// Windows Subsystem for Linux.
    Wsl,
}

impl View for TransportType {
    type V = TransportType;

    open spec fn view(&self) -> TransportType {
        *self
    }
}

impl MapKey for TransportType {
    fn same_key(&self, other: &Self) -> (r: bool) {
        *self == *other
    }

    fn copy_key(&self) -> (r: Self) {
        *self
    }
}

/// The lowercase name of a transport kind.
pub open spec fn transport_name(t: TransportType) -> Seq<char> {
    match t {
        TransportType::Ssh => "ssh"@,
        TransportType::Local => "local"@,
        TransportType::Tcp => "tcp"@,
        TransportType::Wsl => "wsl"@,
    }
}

/// The transport kind that a lowercase name stands for.
pub open spec fn transport_from_name(n: Seq<char>) -> Option<TransportType> {
    if n == "ssh"@ {
        Some(TransportType::Ssh)
    } else if n == "local"@ {
        Some(TransportType::Local)
    } else if n == "tcp"@ {
        Some(TransportType::Tcp)
    } else if n == "wsl"@ {
        Some(TransportType::Wsl)
    } else {
        None
    }
}

/// Each transport kind is read back from its name.
pub proof fn lemma_transport_name_roundtrip(t: TransportType)
    ensures
        transport_from_name(transport_name(t)) == Some(t),
{
    reveal_strlit("ssh");
    reveal_strlit("local");
    reveal_strlit("tcp");
    reveal_strlit("wsl");
    assert("ssh"@[0] != "local"@[0]);
    assert("ssh"@[0] != "tcp"@[0]);
    assert("ssh"@[0] != "wsl"@[0]);
    assert("local"@.len() != "tcp"@.len());
    assert("local"@.len() != "wsl"@.len());
    assert("tcp"@[0] != "wsl"@[0]);
}

impl TransportType {
    /// The lowercase name of the transport kind.
    pub fn to_string(&self) -> (r: String)
        ensures
            r@ == transport_name(*self),
    {
        match self {
            TransportType::Ssh => String::from_str("ssh"),
            TransportType::Local => String::from_str("local"),
            TransportType::Tcp => String::from_str("tcp"),
            TransportType::Wsl => String::from_str("wsl"),
        }
    }

    /// The transport kind named by an already lowercased string.
    pub fn from_lowercase(s: &str) -> (r: Option<TransportType>)
        ensures
            r == transport_from_name(s@),
    {
        if str_eq(s, "ssh") {
            Some(TransportType::Ssh)
        } else if str_eq(s, "local") {
            Some(TransportType::Local)
        } else if str_eq(s, "tcp") {
            Some(TransportType::Tcp)
        } else if str_eq(s, "wsl") {
            Some(TransportType::Wsl)
        } else {
            None
        }
    }

    /// Parses a transport kind, ignoring case.
    pub fn from_str(s: &str) -> (r: Result<TransportType, TransportError>)
        ensures
            match transport_from_name(lowercase(s@)) {
                Some(t) => r == Ok::<TransportType, TransportError>(t),
                None => r matches Err(TransportError::ConfigurationError { reason })
                    && reason@ == "Unknown transport type: "@ + s@,
            },
    {
        let lower = to_lowercase(s);
        match Self::from_lowercase(lower.as_str()) {
            Some(t) => Ok(t),
            None => Err(
                TransportError::ConfigurationError { reason: concat2("Unknown transport type: ", s) },
            ),
        }
    }
}

/// The state of a transport connection.
#[derive(Debug, Clone, Copy, PartialEq, Eq, Structural)]
pub enum ConnectionState {
    /// Not connected.
    Disconnected,
    /// Connecting.
    Connecting,
    /// Connected and ready.
    Connected,
    /// The connection failed.
    Failed,
    /// Reconnecting after a failure.
    Reconnecting,
}

impl ConnectionState {
    /// The lowercase name of the state.
    pub fn to_string(&self) -> (r: String)
        ensures
            r@ == match self {
                ConnectionState::Disconnected => "disconnected"@,
                ConnectionState::Connecting => "connecting"@,
                ConnectionState::Connected => "connected"@,
                ConnectionState::Failed => "failed"@,
                ConnectionState::Reconnecting => "reconnecting"@,
            },
    {
        match self {
            ConnectionState::Disconnected => String::from_str("disconnected"),
            ConnectionState::Connecting => String::from_str("connecting"),
            ConnectionState::Connected => String::from_str("connected"),
            ConnectionState::Failed => String::from_str("failed"),
            ConnectionState::Reconnecting => String::from_str("reconnecting"),
        }
    }
}

/// What a transport kind supports.
#[derive(Debug, Clone, Copy, PartialEq, Eq, Structural)]
pub struct TransportCapabilities {
    /// Uploads the remote binary by itself.
    pub auto_upload: bool,
    /// Forwards ports.
    pub port_forwarding: bool,
    /// Encrypts the connection.
    pub secure: bool,
    /// Exists only on some platforms.
    pub platform_specific: bool,
    /// Can reconnect.
    pub reconnectable: bool,
    /// Multiplexes channels.
    pub multiplexing: bool,
}

/// The capabilities of each transport kind.
pub open spec fn capabilities_of(t: TransportType) -> TransportCapabilities {
    match t {
        TransportType::Ssh => TransportCapabilities {
            auto_upload: true,
            port_forwarding: true,
            secure: true,
            platform_specific: false,
            reconnectable: true,
            multiplexing: true,
        },
        TransportType::Local => TransportCapabilities {
            auto_upload: false,
            port_forwarding: false,
            secure: false,
            platform_specific: false,
            reconnectable: false,
            multiplexing: false,
        },
        TransportType::Tcp => TransportCapabilities {
            auto_upload: false,
            port_forwarding: false,
            secure: false,
            platform_specific: false,
            reconnectable: true,
            multiplexing: false,
        },
        TransportType::Wsl => TransportCapabilities {
            auto_upload: false,
            port_forwarding: false,
            secure: false,
            platform_specific: true,
            reconnectable: false,
            multiplexing: false,
        },
    }
}

impl TransportCapabilities {
    /// The capabilities of a transport kind.
    pub fn for_transport_type(transport_type: TransportType) -> (r: Self)
        ensures
            r == capabilities_of(transport_type),
    {
        match transport_type {
            TransportType::Ssh => TransportCapabilities {
                auto_upload: true,
                port_forwarding: true,
                secure: true,
                platform_specific: false,
                reconnectable: true,
                multiplexing: true,
            },
            TransportType::Local => TransportCapabilities {
                auto_upload: false,
                port_forwarding: false,
                secure: false,
                platform_specific: false,
                reconnectable: false,
                multiplexing: false,
            },
            TransportType::Tcp => TransportCapabilities {
                auto_upload: false,
                port_forwarding: false,
                secure: false,
                platform_specific: false,
                reconnectable: true,
                multiplexing: false,
            },
            TransportType::Wsl => TransportCapabilities {
                auto_upload: false,
                port_forwarding: false,
                secure: false,
                platform_specific: true,
                reconnectable: false,
                multiplexing: false,
            },
        }
    }
}

} // verus!
