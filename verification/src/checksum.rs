//! Checksums used by the V5 wire protocol.
//!
//! The protocol uses CRC-16/XMODEM for packet trailers and a non-reflected
//! CRC-32 (polynomial `0x04C11DB7`, zero init and xorout) for file-content
//! integrity fields.  Both are computed by the `crc` crate; their values are
//! named here so that contracts can speak about them.

use vstd::prelude::*;

verus! {

/// The CRC-16/XMODEM checksum of a byte sequence, as the `crc` crate
/// computes it for `crc::CRC_16_XMODEM`.
pub uninterp spec fn crc16_of(data: Seq<u8>) -> u16;

/// The CRC-32 checksum of a byte sequence for the V5's parameters
/// (polynomial `0x04C11DB7`, zero init, no reflection, zero xorout), as the
/// `crc` crate computes it.
pub uninterp spec fn vex_crc32_of(data: Seq<u8>) -> u32;

/// The big-endian byte pair of a CRC-16 value, high byte first.
pub open spec fn spec_crc16_be(c: u16) -> Seq<u8> {
    seq![(c / 0x100) as u8, (c % 0x100) as u8]
}

/// Relies on `crc::Crc::<u16>::checksum` with `crc::CRC_16_XMODEM`.
/// The catalogue parameters of that algorithm (`refout` false, `xorout` 0,
/// `residue` 0) say that a message followed by its own checksum, high byte
/// first, checksums to zero; the second clause records that for the result.
#[verifier::external_body]
pub fn crc16_xmodem(data: &[u8]) -> (r: u16)
    ensures
        r == crc16_of(data@),
        crc16_of(data@ + spec_crc16_be(r)) == 0,
{
    crc::Crc::<u16>::new(&crc::CRC_16_XMODEM).checksum(data)
}

/// Relies on `crc::Crc::<u32>::checksum` with the V5's CRC-32 parameters.
/// The constructor wants a `'static` algorithm, hence the leaked box.
#[verifier::external_body]
pub fn vex_crc32(data: &[u8]) -> (r: u32)
    ensures
        r == vex_crc32_of(data@),
{
    let alg: &'static crc::Algorithm<u32> = Box::leak(Box::new(crc::Algorithm {
        width: 32,
        poly: 0x04C11DB7,
        init: 0x00000000,
        refin: false,
        refout: false,
        xorout: 0x00000000,
        check: 0x89A1897F,
        residue: 0x00000000,
    }));
    crc::Crc::<u32>::new(alg).checksum(data)
}

} // verus!
