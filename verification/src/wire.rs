//! The bit-exact wire format of the V5 serial protocol, as spec functions,
//! together with small executable helpers for building byte vectors.
//!
//! Host-to-device packets open with the four sync bytes `C9 36 B8 47`;
//! device-to-host packets open with `AA 55`.  An extended packet nests inside
//! a simple packet with command byte `0x56` and closes with a big-endian
//! CRC-16 over everything before it.

use vstd::prelude::*;

use crate::checksum::{crc16_of, spec_crc16_be};

verus! {

/// The command byte that marks an extended packet.
pub const EXTENDED_COMMAND: u8 = 0x56;

/// The largest payload length the one-or-two-byte length encoding can carry.
pub const MAX_EXT_PAYLOAD: usize = 0x7FFF;

/// The four host-to-device sync bytes `C9 36 B8 47`.
pub open spec fn spec_host_sync() -> Seq<u8> {
    seq![0xC9u8, 0x36u8, 0xB8u8, 0x47u8]
}

/// The two device-to-host sync bytes `AA 55`.
pub open spec fn spec_device_sync() -> Seq<u8> {
    seq![0xAAu8, 0x55u8]
}

/// The one-or-two-byte length encoding for an extended payload length `n`
/// (`n <= 0x7FFF`): a single byte carries lengths up to `0x80`; larger
/// lengths set the top bit of a leading high byte and carry the low byte
/// after it.
pub open spec fn spec_varint_len(n: int) -> Seq<u8>
    recommends
        0 <= n <= 0x7FFF,
{
    if n > 0x80 {
        seq![(n / 0x100 + 0x80) as u8, (n % 0x100) as u8]
    } else {
        seq![n as u8]
    }
}

/// Reads a length back out of the bytes a receiver sees for an extended
/// packet: a first byte with the top bit set is a high byte and the next
/// byte carries the low part; otherwise the first byte is the length.
/// Returns the length and how many bytes encoded it.
pub open spec fn spec_varint_parse(bytes: Seq<u8>) -> Option<(int, int)> {
    if bytes.len() >= 1 && bytes[0] < 0x80 {
        Some((bytes[0] as int, 1))
    } else if bytes.len() >= 2 {
        Some(((bytes[0] - 0x80) * 0x100 + bytes[1], 2))
    } else {
        None
    }
}

/// An extended packet before its CRC trailer: host sync, the extended
/// marker `0x56`, the extended command id, the length bytes, the payload.
pub open spec fn spec_ext_packet_prefix(ext_cmd: u8, payload: Seq<u8>) -> Seq<u8> {
    spec_host_sync() + seq![EXTENDED_COMMAND, ext_cmd] + spec_varint_len(payload.len() as int)
        + payload
}

/// A complete encoded extended packet: the prefix followed by the
/// big-endian CRC-16 of the prefix.
pub open spec fn spec_ext_packet(ext_cmd: u8, payload: Seq<u8>) -> Seq<u8> {
    spec_ext_packet_prefix(ext_cmd, payload) + spec_crc16_be(
        crc16_of(spec_ext_packet_prefix(ext_cmd, payload)),
    )
}

/// A complete encoded simple packet: host sync, the command byte, and the
/// raw payload.  No length and no checksum at this layer.
pub open spec fn spec_simple_packet(command: u8, payload: Seq<u8>) -> Seq<u8> {
    spec_host_sync() + seq![command] + payload
}

/// The shape of a received simple packet, relating the command byte and
/// payload the framer hands back to the raw packet bytes it assembled:
/// device sync, the command byte, the length bytes the device sent (two of
/// them only for an extended packet whose first length byte has the top bit
/// set), then exactly as many payload bytes as the length announced.
pub open spec fn spec_recv_simple_wf(command: u8, payload: Seq<u8>, raw: Seq<u8>) -> bool {
    &&& raw.len() >= 4
    &&& raw[0] == 0xAAu8
    &&& raw[1] == 0x55u8
    &&& raw[2] == command
    &&& if command == EXTENDED_COMMAND && raw[3] >= 0x80 {
        &&& raw.len() == 5 + payload.len()
        &&& payload.len() == (raw[3] - 0x80) * 0x100 + raw[4]
        &&& payload == raw.subrange(5, raw.len() as int)
    } else {
        &&& raw.len() == 4 + payload.len()
        &&& payload.len() == raw[3]
        &&& payload == raw.subrange(4, raw.len() as int)
    }
}

/// The payload a well-shaped received extended packet carries inside its
/// simple envelope, read back off the raw bytes.
pub open spec fn spec_recv_ext_payload(raw: Seq<u8>) -> Seq<u8>
    recommends
        raw.len() >= 4,
{
    if raw[3] >= 0x80 {
        raw.subrange(5, raw.len() as int)
    } else {
        raw.subrange(4, raw.len() as int)
    }
}

/// The length encoding is minimal: one byte up to `0x80`, two bytes above.
pub proof fn lemma_varint_len_size(n: int)
    requires
        0 <= n <= 0x7FFF,
    ensures
        spec_varint_len(n).len() == if n <= 0x80 { 1int } else { 2int },
{
}

/// Parsing the length bytes undoes the encoding for every length the
/// encoding represents faithfully, which is every length but `0x80`:
/// `0x80` is emitted as the single byte `0x80`, whose top bit makes a
/// receiver take it for a high byte.
pub proof fn lemma_varint_round_trip(n: int, rest: Seq<u8>)
    requires
        0 <= n <= 0x7FFF,
        n != 0x80,
    ensures
        spec_varint_parse(spec_varint_len(n) + rest) == Some(
            (n, spec_varint_len(n).len() as int),
        ),
{
    let enc = spec_varint_len(n) + rest;
    if n > 0x80 {
        assert(enc[0] == (n / 0x100 + 0x80) as u8);
        assert(enc[1] == (n % 0x100) as u8);
        assert(n / 0x100 + 0x80 <= 0xFF);
        assert((enc[0] - 0x80) * 0x100 + enc[1] == n);
    } else {
        assert(enc[0] == n as u8);
        assert(enc[0] < 0x80);
    }
}

/// An encoded extended packet parses back to what was encoded: after the
/// four sync bytes come the extended marker and the command id, the length
/// bytes read back as exactly the payload length, and the payload bytes
/// sit between them and the two-byte CRC trailer.  This holds for every
/// payload length the length encoding represents faithfully, which is
/// every length up to `0x7FFF` except `0x80` (see
/// [`lemma_varint_round_trip`]); and the length encoding uses exactly one
/// byte for lengths up to `0x80` and two bytes above.
pub proof fn lemma_ext_packet_round_trip(ext_cmd: u8, payload: Seq<u8>)
    requires
        payload.len() <= 0x7FFF,
        payload.len() != 0x80,
    ensures
        ({
            let pkt = spec_ext_packet(ext_cmd, payload);
            let nb = spec_varint_len(payload.len() as int).len() as int;
            &&& nb == (if payload.len() <= 0x80 {
                1int
            } else {
                2int
            })
            &&& pkt.len() == 8 + nb + payload.len()
            &&& pkt.subrange(0, 4) == spec_host_sync()
            &&& pkt[4] == EXTENDED_COMMAND
            &&& pkt[5] == ext_cmd
            &&& spec_varint_parse(pkt.skip(6)) == Some((payload.len() as int, nb))
            &&& pkt.subrange(6 + nb, 6 + nb + payload.len()) == payload
        }),
{
    let pfx = spec_ext_packet_prefix(ext_cmd, payload);
    let pkt = spec_ext_packet(ext_cmd, payload);
    let lb = spec_varint_len(payload.len() as int);
    let nb = lb.len() as int;
    lemma_varint_len_size(payload.len() as int);
    lemma_varint_round_trip(
        payload.len() as int,
        payload + spec_crc16_be(crc16_of(pfx)),
    );
    assert(pkt =~= spec_host_sync() + seq![EXTENDED_COMMAND, ext_cmd] + lb + payload
        + spec_crc16_be(crc16_of(pfx)));
    assert(pkt.subrange(0, 4) =~= spec_host_sync());
    assert(pkt.skip(6) =~= lb + (payload + spec_crc16_be(crc16_of(pfx))));
    assert(pkt.subrange(6 + nb, 6 + nb + payload.len()) =~= payload);
}

/// True when the device sync pair `AA 55` occurs somewhere in `s`.
pub open spec fn spec_contains_sync(s: Seq<u8>) -> bool {
    exists|i: int| 0 <= i && i + 1 < s.len() && #[trigger] s[i] == 0xAAu8 && s[i + 1] == 0x55u8
}

/// Appending a byte introduces a sync pair only when the sequence already
/// ends with `AA` and the new byte is `55`.
pub proof fn lemma_sync_push(s: Seq<u8>, b: u8)
    requires
        !spec_contains_sync(s),
        !(s.len() >= 1 && s[s.len() - 1] == 0xAAu8 && b == 0x55u8),
    ensures
        !spec_contains_sync(s.push(b)),
{
    let t = s.push(b);
    assert forall|i: int| 0 <= i && i + 1 < t.len() implies !(#[trigger] t[i] == 0xAAu8 && t[i
        + 1] == 0x55u8) by {
        if i + 1 < s.len() {
            assert(t[i] == s[i]);
            assert(t[i + 1] == s[i + 1]);
        } else {
            assert(i + 1 == s.len());
            assert(t[i] == s[i]);
            assert(t[i + 1] == b);
        }
    }
}

/// A prefix of a sequence without a sync pair has no sync pair either.
pub proof fn lemma_sync_prefix(s: Seq<u8>, k: int)
    requires
        !spec_contains_sync(s),
        0 <= k <= s.len(),
    ensures
        !spec_contains_sync(s.take(k)),
{
    let t = s.take(k);
    assert forall|i: int| 0 <= i && i + 1 < t.len() implies !(#[trigger] t[i] == 0xAAu8 && t[i
        + 1] == 0x55u8) by {
        assert(t[i] == s[i]);
        assert(t[i + 1] == s[i + 1]);
    }
}

/// Appends every byte of `src` to `dst`.
pub fn push_slice(dst: &mut Vec<u8>, src: &[u8])
    ensures
        final(dst)@ == old(dst)@ + src@,
{
    let mut i: usize = 0;
    while i < src.len()
        invariant
            i <= src@.len(),
            dst@ == old(dst)@ + src@.subrange(0, i as int),
        decreases src@.len() - i,
    {
        dst.push(*vstd::slice::slice_index_get(src, i));
        i = i + 1;
        assert(dst@ == old(dst)@ + src@.subrange(0, i as int));
    }
    assert(src@.subrange(0, src@.len() as int) == src@);
}

/// True exactly when the two byte slices hold the same bytes.
pub fn bytes_eq(a: &[u8], b: &[u8]) -> (r: bool)
    ensures
        r <==> a@ == b@,
{
    if a.len() != b.len() {
        assert(a@.len() != b@.len());
        return false;
    }
    let n = a.len();
    let mut i: usize = 0;
    while i < n
        invariant
            n == a@.len() == b@.len(),
            i <= n,
            forall|j: int| 0 <= j < i ==> a@[j] == b@[j],
        decreases n - i,
    {
        if *vstd::slice::slice_index_get(a, i) != *vstd::slice::slice_index_get(b, i) {
            return false;
        }
        i = i + 1;
    }
    proof {
        assert(a@ =~= b@);
    }
    true
}

} // verus!
