//! The error types of the message channel layer and of clipboard and browser operations.
use vstd::prelude::*;

use crate::text::{decimal, u64_to_decimal};

verus! {

/// Renders an I/O error with its `Display` implementation.
#[verifier::external_body]
fn io_error_to_string(e: &std::io::Error) -> String {
    e.to_string()
}

/// The error type of the channel layer.
#[derive(Debug)]
pub enum YuhaError {
    /// Clipboard errors.
    Clipboard(ClipboardError),
    /// Browser errors.
    Browser(BrowserError),
    /// Channel errors.
    Channel(ChannelError),
    /// I/O errors.
    Io(std::io::Error),
    /// Protocol errors.
    Protocol { message: String },
    /// Configuration errors.
    Config { message: String },
    /// Session errors.
    Session { message: String },
    /// Internal errors.
    Internal { message: String },
}

/// Errors of a message channel.
#[derive(Debug)]
pub enum ChannelError {
    /// An I/O error during communication.
    Io(std::io::Error),
    /// A protocol-level error.
    Protocol { message: String },
    /// The channel is closed.
    Closed,
    /// A message could not be encoded or decoded.
    Serialization { reason: String },
    /// No answer came in time.
    Timeout { seconds: u64 },
    /// A message is too large to frame.
    BufferOverflow { size: usize },
}

/// The name of an error's category, as used in logs and metrics.
pub open spec fn category_name(e: &YuhaError) -> Seq<char> {
    match e {
        YuhaError::Clipboard(_) => "clipboard"@,
        YuhaError::Browser(_) => "browser"@,
        YuhaError::Channel(_) => "channel"@,
        YuhaError::Io(_) => "io"@,
        YuhaError::Protocol { .. } => "protocol"@,
        YuhaError::Config { .. } => "config"@,
        YuhaError::Session { .. } => "session"@,
        YuhaError::Internal { .. } => "internal"@,
    }
}

/// Whether an error is worth retrying.
pub open spec fn retriable(e: &YuhaError) -> bool {
    match e {
        YuhaError::Io(_) => true,
        YuhaError::Channel(ChannelError::Timeout { .. }) => true,
        YuhaError::Channel(ChannelError::Io(_)) => true,
        YuhaError::Browser(BrowserError::ExecutionFailed { .. }) => true,
        _ => false,
    }
}

impl YuhaError {
    /// A protocol error.
    pub fn protocol(message: &str) -> (r: Self)
        ensures
            r matches YuhaError::Protocol { message: m } && m@ == message@,
    {
        YuhaError::Protocol { message: String::from_str(message) }
    }

    /// A configuration error.
    pub fn config(message: &str) -> (r: Self)
        ensures
            r matches YuhaError::Config { message: m } && m@ == message@,
    {
        YuhaError::Config { message: String::from_str(message) }
    }

    /// A session error.
    pub fn session(message: &str) -> (r: Self)
        ensures
            r matches YuhaError::Session { message: m } && m@ == message@,
    {
        YuhaError::Session { message: String::from_str(message) }
    }

    /// An internal error.
    pub fn internal(message: &str) -> (r: Self)
        ensures
            r matches YuhaError::Internal { message: m } && m@ == message@,
    {
        YuhaError::Internal { message: String::from_str(message) }
    }

    /// Whether the error is worth retrying.
    pub fn is_retriable(&self) -> (r: bool)
        ensures
            r == retriable(self),
    {
        matches!(
            self,
            YuhaError::Io(_) | YuhaError::Channel(ChannelError::Timeout { .. }) | YuhaError::Channel(
                ChannelError::Io(_),
            ) | YuhaError::Browser(BrowserError::ExecutionFailed { .. })
        )
    }

    /// The message of an error that holds no I/O error.
    pub open spec fn text(&self) -> Seq<char> {
        match self {
            YuhaError::Clipboard(e) => e.text(),
            YuhaError::Browser(e) => e.text(),
            YuhaError::Channel(e) => e.text(),
            YuhaError::Io(_) => Seq::empty(),
            YuhaError::Protocol { message } => "Protocol error: "@ + message@,
            YuhaError::Config { message } => "Configuration error: "@ + message@,
            YuhaError::Session { message } => "Session error: "@ + message@,
            YuhaError::Internal { message } => "Internal error: "@ + message@,
        }
    }

    /// Renders the error's message; the errors of clipboard, browser and channel are rendered
    /// as they render themselves.
    pub fn to_string(&self) -> (r: String)
        ensures
            !(self is Io) && !(self matches YuhaError::Channel(ChannelError::Io(_))) ==> r@ == self.text(),
    {
        match self {
            YuhaError::Clipboard(e) => e.to_string(),
            YuhaError::Browser(e) => e.to_string(),
            YuhaError::Channel(e) => e.to_string(),
            YuhaError::Io(e) => {
                let mut s = String::from_str("I/O error: ");
                let t = io_error_to_string(e);
                s.append(t.as_str());
                s
            },
            YuhaError::Protocol { message } => {
                let mut s = String::from_str("Protocol error: ");
                s.append(message.as_str());
                s
            },
            YuhaError::Config { message } => {
                let mut s = String::from_str("Configuration error: ");
                s.append(message.as_str());
                s
            },
            YuhaError::Session { message } => {
                let mut s = String::from_str("Session error: ");
                s.append(message.as_str());
                s
            },
            YuhaError::Internal { message } => {
                let mut s = String::from_str("Internal error: ");
                s.append(message.as_str());
                s
            },
        }
    }

    /// The error's category, for logs and metrics.
    pub fn category(&self) -> (r: &'static str)
        ensures
            r@ == category_name(self),
    {
        match self {
            YuhaError::Clipboard(_) => "clipboard",
            YuhaError::Browser(_) => "browser",
            YuhaError::Channel(_) => "channel",
            YuhaError::Io(_) => "io",
            YuhaError::Protocol { .. } => "protocol",
            YuhaError::Config { .. } => "config",
            YuhaError::Session { .. } => "session",
            YuhaError::Internal { .. } => "internal",
        }
    }
}

impl ClipboardError {
    /// A read failure.
    pub fn read_failed(reason: &str) -> (r: Self)
        ensures
            r matches ClipboardError::ReadFailed { reason: m } && m@ == reason@,
    {
        ClipboardError::ReadFailed { reason: String::from_str(reason) }
    }

    /// A write failure.
    pub fn write_failed(reason: &str) -> (r: Self)
        ensures
            r matches ClipboardError::WriteFailed { reason: m } && m@ == reason@,
    {
        ClipboardError::WriteFailed { reason: String::from_str(reason) }
    }

    /// A lock failure.
    pub fn lock_failed(reason: &str) -> (r: Self)
        ensures
            r matches ClipboardError::LockFailed { reason: m } && m@ == reason@,
    {
        ClipboardError::LockFailed { reason: String::from_str(reason) }
    }
}

impl BrowserError {
    /// A failure to open a URL.
    pub fn open_failed(url: &str, reason: &str) -> (r: Self)
        ensures
            r matches BrowserError::OpenFailed { url: u, reason: m } && u@ == url@ && m@ == reason@,
    {
        BrowserError::OpenFailed { url: String::from_str(url), reason: String::from_str(reason) }
    }

    /// A malformed URL.
    pub fn invalid_url(url: &str) -> (r: Self)
        ensures
            r matches BrowserError::InvalidUrl { url: u } && u@ == url@,
    {
        BrowserError::InvalidUrl { url: String::from_str(url) }
    }

    /// A failure to run the browser.
    pub fn execution_failed(reason: &str) -> (r: Self)
        ensures
            r matches BrowserError::ExecutionFailed { reason: m } && m@ == reason@,
    {
        BrowserError::ExecutionFailed { reason: String::from_str(reason) }
    }
}

impl ChannelError {
    /// A protocol error.
    pub fn protocol(message: &str) -> (r: Self)
        ensures
            r matches ChannelError::Protocol { message: m } && m@ == message@,
    {
        ChannelError::Protocol { message: String::from_str(message) }
    }

    /// A serialization error.
    pub fn serialization(reason: &str) -> (r: Self)
        ensures
            r matches ChannelError::Serialization { reason: m } && m@ == reason@,
    {
        ChannelError::Serialization { reason: String::from_str(reason) }
    }

    /// A timeout after the given number of seconds.
    pub fn timeout(seconds: u64) -> (r: Self)
        ensures
            r == (ChannelError::Timeout { seconds }),
    {
        ChannelError::Timeout { seconds }
    }

    /// A message of the given size that is too large.
    pub fn buffer_overflow(size: usize) -> (r: Self)
        ensures
            r == (ChannelError::BufferOverflow { size }),
    {
        ChannelError::BufferOverflow { size }
    }

    /// The message of an error other than an I/O error.
    pub open spec fn text(&self) -> Seq<char> {
        match self {
            ChannelError::Io(_) => Seq::empty(),
            ChannelError::Protocol { message } => "Protocol error: "@ + message@,
            ChannelError::Closed => "Channel closed"@,
            ChannelError::Serialization { reason } => "Serialization error: "@ + reason@,
            ChannelError::Timeout { seconds } => "Operation timed out after "@ + decimal(*seconds as nat)
                + " seconds"@,
            ChannelError::BufferOverflow { size } => "Buffer overflow: message too large ("@ + decimal(
                *size as nat,
            ) + " bytes)"@,
        }
    }

    /// Renders the error's message.
    pub fn to_string(&self) -> (r: String)
        ensures
            !(self is Io) ==> r@ == self.text(),
    {
        match self {
            ChannelError::Io(e) => {
                let mut s = String::from_str("I/O error: ");
                let t = io_error_to_string(e);
                s.append(t.as_str());
                s
            },
            ChannelError::Protocol { message } => {
                let mut s = String::from_str("Protocol error: ");
                s.append(message.as_str());
                s
            },
            ChannelError::Closed => String::from_str("Channel closed"),
            ChannelError::Serialization { reason } => {
                let mut s = String::from_str("Serialization error: ");
                s.append(reason.as_str());
                s
            },
            ChannelError::Timeout { seconds } => {
                let mut s = String::from_str("Operation timed out after ");
                let d = u64_to_decimal(*seconds);
                s.append(d.as_str());
                s.append(" seconds");
                s
            },
            ChannelError::BufferOverflow { size } => {
                let mut s = String::from_str("Buffer overflow: message too large (");
                let d = u64_to_decimal(*size as u64);
                s.append(d.as_str());
                s.append(" bytes)");
                s
            },
        }
    }
}

/// Errors of clipboard operations.
#[derive(Debug)]
pub enum ClipboardError {
    /// Reading the clipboard failed.
    ReadFailed { reason: String },
    /// Writing the clipboard failed.
    WriteFailed { reason: String },
    /// The clipboard may not be used.
    AccessDenied,
    /// The clipboard lock could not be taken.
    LockFailed { reason: String },
    /// The content format is not supported.
    UnsupportedFormat { format: String },
}

impl ClipboardError {
    /// The message that describes the error.
    pub open spec fn text(&self) -> Seq<char> {
        match self {
            ClipboardError::ReadFailed { reason } => "Failed to read clipboard: "@ + reason@,
            ClipboardError::WriteFailed { reason } => "Failed to write clipboard: "@ + reason@,
            ClipboardError::AccessDenied => "Clipboard access denied"@,
            ClipboardError::LockFailed { reason } => "Failed to acquire clipboard lock: "@ + reason@,
            ClipboardError::UnsupportedFormat { format } => "Unsupported clipboard format: "@ + format@,
        }
    }

    /// Renders the message that describes the error.
    pub fn to_string(&self) -> (r: String)
        ensures
            r@ == self.text(),
    {
        match self {
            ClipboardError::ReadFailed { reason } => {
                let mut s = String::from_str("Failed to read clipboard: ");
                s.append(reason.as_str());
                s
            },
            ClipboardError::WriteFailed { reason } => {
                let mut s = String::from_str("Failed to write clipboard: ");
                s.append(reason.as_str());
                s
            },
            ClipboardError::AccessDenied => {
                let mut s = String::from_str("Clipboard access denied");
                s
            },
            ClipboardError::LockFailed { reason } => {
                let mut s = String::from_str("Failed to acquire clipboard lock: ");
                s.append(reason.as_str());
                s
            },
            ClipboardError::UnsupportedFormat { format } => {
                let mut s = String::from_str("Unsupported clipboard format: ");
                s.append(format.as_str());
                s
            },
        }
    }
}

/// Errors of browser operations.
#[derive(Debug)]
pub enum BrowserError {
    /// The URL could not be opened.
    OpenFailed { url: String, reason: String },
    /// The URL is malformed.
    InvalidUrl { url: String },
    /// There is no default browser.
    NoBrowserAvailable,
    /// The browser could not be run.
    ExecutionFailed { reason: String },
}

impl BrowserError {
    /// The message that describes the error.
    pub open spec fn text(&self) -> Seq<char> {
        match self {
            BrowserError::OpenFailed { url, reason } => "Failed to open URL '"@ + url@ + "': "@ + reason@,
            BrowserError::InvalidUrl { url } => "Invalid URL format: "@ + url@,
            BrowserError::NoBrowserAvailable => "No default browser available"@,
            BrowserError::ExecutionFailed { reason } => "Browser execution failed: "@ + reason@,
        }
    }

    /// Renders the message that describes the error.
    pub fn to_string(&self) -> (r: String)
        ensures
            r@ == self.text(),
    {
        match self {
            BrowserError::OpenFailed { url, reason } => {
                let mut s = String::from_str("Failed to open URL '");
                s.append(url.as_str());
                s.append("': ");
                s.append(reason.as_str());
                s
            },
            BrowserError::InvalidUrl { url } => {
                let mut s = String::from_str("Invalid URL format: ");
                s.append(url.as_str());
                s
            },
            BrowserError::NoBrowserAvailable => {
                let mut s = String::from_str("No default browser available");
                s
            },
            BrowserError::ExecutionFailed { reason } => {
                let mut s = String::from_str("Browser execution failed: ");
                s.append(reason.as_str());
                s
            },
        }
    }
}


} // verus!
