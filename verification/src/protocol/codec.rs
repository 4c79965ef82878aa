//! Message codecs.
use vstd::prelude::*;

verus! {

/// The JSON codec.
#[derive(Debug, Clone, Copy, Default)]
pub struct JsonCodec;

impl JsonCodec {
    /// The JSON codec.
    pub fn new() -> (r: Self) {
        JsonCodec
    }
}

/// A binary codec.
#[derive(Debug, Clone, Copy, Default)]
pub struct BinaryCodec;

impl BinaryCodec {
    /// A binary codec.
    pub fn new() -> (r: Self) {
        BinaryCodec
    }
}

/// A compressed JSON codec for large messages.
#[derive(Debug, Clone, Copy, Default)]
pub struct CompressedJsonCodec {
    compression_level: u32,
}

impl CompressedJsonCodec {
    /// The compression level.
    pub closed spec fn level(&self) -> u32 {
        self.compression_level
    }

    /// A compressed JSON codec with a compression level.
    pub fn new(compression_level: u32) -> (r: Self)
        ensures
            r.level() == compression_level,
    {
        CompressedJsonCodec { compression_level }
    }

    /// The compression level.
    pub fn compression_level(&self) -> (r: u32)
        ensures
            r == self.level(),
    {
        self.compression_level
    }
}

/// Makes protocols of the simple client-server kind, with the JSON codec.
#[derive(Debug, Clone, Copy)]
pub struct SimpleProtocolFactory;

/// Makes protocols of the daemon kind, with the JSON codec.
#[derive(Debug, Clone, Copy)]
pub struct DaemonProtocolFactory;

} // verus!
