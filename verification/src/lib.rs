//! yuha: sessions, transports, configuration, protocol and remote-server logic of a remote
//! development tool, verified with Verus.
pub mod keyed;
pub mod text;
pub mod clock;
pub mod platform;
pub mod error;
pub mod simple_error;
pub mod message_channel;
pub mod transport;
pub mod logging;
pub mod metrics;
pub mod config;
pub mod session;
pub mod multi_session;
pub mod protocol;
pub mod clipboard;
pub mod browser;
pub mod ipc;
pub mod port_forward;
pub mod remote;
