//! The set of checks a receiver performs on an incoming extended packet.

use vstd::prelude::*;

verus! {

/// Which checks to run while decoding an extended packet.  Some commands
/// skip the ACK or CRC check by design, so each is its own switch.
#[derive(Debug, Clone, Copy, PartialEq, Eq, Structural)]
pub struct VexExtPacketChecks {
    /// Check the acknowledgement byte and fail on a NACK.
    pub ack: bool,
    /// Recompute the CRC-16 over the whole received packet.
    pub crc: bool,
    /// Check the length fields of the packet.
    pub length: bool,
}

impl VexExtPacketChecks {
    /// All checks on.
    pub fn all() -> (r: Self)
        ensures
            r == (VexExtPacketChecks { ack: true, crc: true, length: true }),
    {
        VexExtPacketChecks { ack: true, crc: true, length: true }
    }

    /// No checks at all.
    pub fn none() -> (r: Self)
        ensures
            r == (VexExtPacketChecks { ack: false, crc: false, length: false }),
    {
        VexExtPacketChecks { ack: false, crc: false, length: false }
    }
}

} // verus!
