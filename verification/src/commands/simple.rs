//! The simple command: the outer wire envelope every request and response
//! travels in, and the framer that synchronizes to one on a live stream.

use vstd::prelude::*;

use crate::errors::DecodeError;
use crate::io::ByteStream;
use crate::wire::{
    lemma_sync_prefix, lemma_sync_push, spec_contains_sync, spec_recv_simple_wf,
    spec_simple_packet, EXTENDED_COMMAND,
};

verus! {

/// How many bytes the framer will scan for the sync sequence in one
/// receive before giving up, independently of the clock.
pub const SYNC_SCAN_LIMIT: usize = 0x0100_0000;

/// A simple command: the simple command id (`0x56` marks an extended
/// command) and the payload to send after it.
#[derive(Copy, Clone)]
pub struct Simple<'a>(pub u8, pub &'a [u8]);

/// The response to a simple command: the received command id, the received
/// payload, and the entire raw packet, which the extended layer needs to
/// verify the CRC.
#[derive(Debug, PartialEq, Eq)]
pub struct SimpleResponse(pub u8, pub Vec<u8>, pub Vec<u8>);

impl<'a> Simple<'a> {
    /// Encodes the request: the four host sync bytes, the command byte,
    /// and the raw payload.  No length is encoded at this layer.
    pub fn encode_request(self) -> (r: Vec<u8>)
        ensures
            r@ == spec_simple_packet(self.0, self.1@),
    {
        let mut packet: Vec<u8> = Vec::new();
        packet.push(0xC9);
        packet.push(0x36);
        packet.push(0xB8);
        packet.push(0x47);
        packet.push(self.0);
        crate::wire::push_slice(&mut packet, self.1);
        proof {
            assert(packet@ =~= spec_simple_packet(self.0, self.1@));
        }
        packet
    }

    /// Decodes one simple packet from a live byte stream.
    ///
    /// The framer scans byte by byte for the `AA 55` sync pair, restarting
    /// the match on `0xAA` after a mismatch; bytes before the sync are
    /// discarded.  It fails with [`DecodeError::HeaderTimeout`] when the
    /// stream's response deadline passes before the sync completes.  After
    /// the sync it reads the command byte and one length byte; an extended
    /// command whose length byte has the top bit set carries the length in
    /// that byte and one more.  Exactly that many payload bytes follow.
    ///
    /// On success the returned command, payload and raw packet fit the
    /// received-packet shape: the framer invents and drops nothing.
    /// Moreover the stream delivered exactly some preceding bytes holding
    /// no sync pair, then the raw packet: the framer locked on to the
    /// first sync pair in the stream and discarded only what came before
    /// it.
    pub fn decode_stream<T: ByteStream>(stream: &mut T, timeout_ms: u64) -> (r: Result<
        SimpleResponse,
        DecodeError,
    >)
        ensures
            r matches Ok(resp) ==> spec_recv_simple_wf(resp.0, resp.1@, resp.2@),
            r matches Ok(resp) ==> exists|skipped: Seq<u8>|
                #![auto]
                final(stream).spec_taken() == old(stream).spec_taken() + skipped + resp.2@
                    && !spec_contains_sync(skipped),
            final(stream).spec_written() == old(stream).spec_written(),
    {
        stream.start_response_timeout(timeout_ms);

        let ghost taken0: Seq<u8> = stream.spec_taken();
        let ghost mut consumed: Seq<u8> = Seq::empty();
        let mut header_index: usize = 0;
        let mut scanned: usize = 0;
        while header_index < 2 && scanned < SYNC_SCAN_LIMIT
            invariant
                header_index <= 2,
                stream.spec_written() == old(stream).spec_written(),
                stream.spec_taken() == taken0 + consumed,
                header_index < 2 ==> !spec_contains_sync(consumed),
                header_index == 1 ==> consumed.len() >= 1 && consumed[consumed.len() - 1]
                    == 0xAAu8,
                header_index == 0 ==> (consumed.len() == 0 || consumed[consumed.len() - 1]
                    != 0xAAu8),
                header_index == 2 ==> consumed.len() >= 2 && consumed[consumed.len() - 2]
                    == 0xAAu8 && consumed[consumed.len() - 1] == 0x55u8 && !spec_contains_sync(
                    consumed.take(consumed.len() - 2),
                ),
            decreases SYNC_SCAN_LIMIT - scanned,
        {
            if stream.response_deadline_elapsed() {
                return Err(DecodeError::HeaderTimeout);
            }
            let b = match stream.read_exact(1) {
                Ok(v) => v[0],
                Err(e) => {
                    return Err(e);
                },
            };
            proof {
                let ghost before = consumed;
                consumed = consumed.push(b);
                assert(stream.spec_taken() =~= taken0 + consumed);
                if !(header_index == 1 && b == 0x55) {
                    lemma_sync_push(before, b);
                } else {
                    lemma_sync_prefix(before, before.len() - 1);
                    assert(consumed.take(consumed.len() - 2) =~= before.take(
                        before.len() - 1,
                    ));
                }
            }
            if header_index == 0 {
                if b == 0xAA {
                    header_index = 1;
                }
            } else {
                if b == 0x55 {
                    header_index = 2;
                } else if b == 0xAA {
                    header_index = 1;
                } else {
                    header_index = 0;
                }
            }
            scanned = scanned + 1;
        }
        if header_index < 2 {
            return Err(DecodeError::HeaderTimeout);
        }
        let ghost skipped: Seq<u8> = consumed.take(consumed.len() - 2);
        proof {
            assert(consumed =~= skipped + seq![0xAAu8, 0x55u8]);
        }

        let mut packet: Vec<u8> = Vec::new();
        packet.push(0xAA);
        packet.push(0x55);

        let header = match stream.read_exact(2) {
            Ok(v) => v,
            Err(e) => {
                return Err(e);
            },
        };
        let command: u8 = header[0];
        let len_byte: u8 = header[1];
        packet.push(command);
        packet.push(len_byte);

        let two_byte_length: bool = command == EXTENDED_COMMAND && len_byte >= 0x80;
        let length: u16 = if two_byte_length {
            let low = match stream.read_exact(1) {
                Ok(v) => v[0],
                Err(e) => {
                    return Err(e);
                },
            };
            packet.push(low);
            assert(packet@ =~= seq![0xAAu8, 0x55u8, command, len_byte, low]);
            ((len_byte - 0x80) as u16) * 0x100 + (low as u16)
        } else {
            assert(packet@ =~= seq![0xAAu8, 0x55u8, command, len_byte]);
            len_byte as u16
        };

        let ghost prefix: Seq<u8> = packet@;
        let payload = match stream.read_exact(length as usize) {
            Ok(v) => v,
            Err(e) => {
                return Err(e);
            },
        };
        crate::wire::push_slice(&mut packet, payload.as_slice());

        proof {
            assert(packet@ == prefix + payload@);
            assert(payload@.len() == length as int);
            if two_byte_length {
                assert(prefix.len() == 5);
                assert(packet@.subrange(5, packet@.len() as int) =~= payload@);
            } else {
                assert(prefix.len() == 4);
                assert(packet@.subrange(4, packet@.len() as int) =~= payload@);
            }
            assert(spec_recv_simple_wf(command, payload@, packet@));
            assert(stream.spec_taken() =~= taken0 + skipped + packet@);
        }
        Ok(SimpleResponse(command, payload, packet))
    }
}

} // verus!
