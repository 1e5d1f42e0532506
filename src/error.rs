//! The ways in which decoding or encoding can fail.

use vstd::prelude::*;

verus! {

/// Why a header or a packet could not be decoded or encoded.
#[derive(Debug, Clone, Copy, PartialEq, Eq, Structural)]
pub enum PcapError {
    /// The magic number is none of the four accepted constants.
    InvalidMagicNumber,
    /// Fewer bytes remain than a fixed-size header needs.
    TruncatedHeader,
    /// A packet header was decoded, but fewer payload bytes remain than it
    /// claims.
    TruncatedPacketData,
}

} // verus!
