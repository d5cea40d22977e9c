//! Encoding and decoding of extended commands, the sub-protocol every other
//! extended command builds on.

use vstd::prelude::*;

use crate::checks::VexExtPacketChecks;
use crate::checksum::{crc16_of, crc16_xmodem, spec_crc16_be};
use crate::errors::{spec_ack_from_u8, DecodeError, VexACKType};
use crate::wire::{
    spec_ext_packet, spec_ext_packet_prefix, spec_host_sync, spec_varint_len, EXTENDED_COMMAND,
    MAX_EXT_PAYLOAD,
};

use super::Command;

verus! {

/// An extended command: the extended command id and its payload.
///
/// Encoding wraps them in a simple packet with command `0x56`, a one-or-two
/// byte payload length, and a trailing CRC-16 over the whole packet.
#[derive(Copy, Clone)]
pub struct Extended<'a>(pub u8, pub &'a [u8]);

/// The response returned by an extended command: the extended command id of
/// the response and its payload.
#[derive(Debug, PartialEq, Eq)]
pub struct ExtendedResponse(pub u8, pub Vec<u8>);

/// What decoding an extended payload yields: the receiver side of the
/// extended sub-protocol on the payload of a simple packet.
///
/// The simple command must be the extended marker; the first payload byte is
/// the extended command id; when the ACK check is on, the second byte must
/// be the documented ACK value; the data is everything after those two bytes
/// and before the two trailing CRC bytes.
pub open spec fn spec_decode_extended(command_id: u8, data: Seq<u8>, ack_check: bool) -> Result<
    (u8, Seq<u8>),
    DecodeError,
> {
    if command_id != EXTENDED_COMMAND {
        Err(DecodeError::ExpectedExtended)
    } else if data.len() < 1 {
        Err(DecodeError::PacketLengthError)
    } else if ack_check && data.len() < 2 {
        Err(DecodeError::PacketLengthError)
    } else if ack_check && spec_ack_from_u8(data[1]) is None {
        Err(DecodeError::InvalidAck)
    } else if ack_check && spec_ack_from_u8(data[1]) != Some(VexACKType::ACK) {
        Err(DecodeError::NACK(spec_ack_from_u8(data[1])->Some_0))
    } else if data.len() < 4 {
        Err(DecodeError::PacketLengthError)
    } else {
        Ok((data[0], data.subrange(2, data.len() - 2)))
    }
}

/// Builds the complete wire bytes of an extended packet: host sync, the
/// extended marker, the command id, the payload length in one or two bytes,
/// the payload, and the big-endian CRC-16 of everything before it.  A
/// payload too long for the length encoding is rejected before any byte is
/// built.  A correctly encoded packet checksums to zero as a whole.
pub fn encode_extended_packet(ext_cmd: u8, payload: &[u8]) -> (r: Result<Vec<u8>, DecodeError>)
    ensures
        payload@.len() <= MAX_EXT_PAYLOAD ==> (r matches Ok(v) && v@ == spec_ext_packet(
            ext_cmd,
            payload@,
        ) && crc16_of(v@) == 0),
        payload@.len() > MAX_EXT_PAYLOAD ==> r == Err::<Vec<u8>, DecodeError>(
            DecodeError::PacketLengthError,
        ),
{
    if payload.len() > MAX_EXT_PAYLOAD {
        return Err(DecodeError::PacketLengthError);
    }
    let len: u16 = payload.len() as u16;
    let mut packet: Vec<u8> = Vec::new();
    packet.push(0xC9);
    packet.push(0x36);
    packet.push(0xB8);
    packet.push(0x47);
    packet.push(EXTENDED_COMMAND);
    packet.push(ext_cmd);
    if len > 0x80 {
        packet.push((len / 0x100 + 0x80) as u8);
    }
    packet.push((len % 0x100) as u8);
    assert(packet@ =~= spec_host_sync() + seq![EXTENDED_COMMAND, ext_cmd] + spec_varint_len(
        payload@.len() as int,
    ));
    crate::wire::push_slice(&mut packet, payload);
    assert(packet@ =~= spec_ext_packet_prefix(ext_cmd, payload@));
    let c = crc16_xmodem(packet.as_slice());
    packet.push((c / 0x100) as u8);
    packet.push((c % 0x100) as u8);
    assert(packet@ =~= spec_ext_packet_prefix(ext_cmd, payload@) + spec_crc16_be(c));
    Ok(packet)
}

impl<'a> Extended<'a> {
    /// Decodes an extended payload received inside a simple packet, running
    /// the requested checks.  The CRC check needs the raw packet bytes and
    /// is the receiver's business (see the protocol layer); here the ACK
    /// switch decides whether the acknowledgement byte is interpreted.
    pub fn decode_extended(command_id: u8, data: Vec<u8>, checks: VexExtPacketChecks) -> (r:
        Result<ExtendedResponse, DecodeError>)
        ensures
            match r {
                Ok(resp) => spec_decode_extended(command_id, data@, checks.ack) == Ok::<
                    _,
                    DecodeError,
                >((resp.0, resp.1@)),
                Err(e) => spec_decode_extended(command_id, data@, checks.ack) == Err::<
                    (u8, Seq<u8>),
                    _,
                >(e),
            },
    {
        if command_id != EXTENDED_COMMAND {
            return Err(DecodeError::ExpectedExtended);
        }
        if data.len() < 1 {
            return Err(DecodeError::PacketLengthError);
        }
        let cmd: u8 = data[0];
        if checks.ack {
            if data.len() < 2 {
                return Err(DecodeError::PacketLengthError);
            }
            match VexACKType::from_u8(data[1]) {
                Err(e) => {
                    return Err(e);
                },
                Ok(ack) => {
                    if ack != VexACKType::ACK {
                        return Err(DecodeError::NACK(ack));
                    }
                },
            }
        }
        if data.len() < 4 {
            return Err(DecodeError::PacketLengthError);
        }
        let payload = vstd::slice::slice_to_vec(
            vstd::slice::slice_subrange(data.as_slice(), 2, data.len() - 2),
        );
        Ok(ExtendedResponse(cmd, payload))
    }
}

/// Decodes an extended payload with every check on, as
/// [`Extended::decode_response`] does.
pub fn decode_extended_payload(command_id: u8, data: Vec<u8>) -> (r: Result<
    ExtendedResponse,
    DecodeError,
>)
    ensures
        match r {
            Ok(resp) => spec_decode_extended(command_id, data@, true) == Ok::<_, DecodeError>(
                (resp.0, resp.1@),
            ),
            Err(e) => spec_decode_extended(command_id, data@, true) == Err::<(u8, Seq<u8>), _>(e),
        },
{
    Extended::decode_extended(command_id, data, VexExtPacketChecks::all())
}

impl<'a> Command for Extended<'a> {
    type Response = ExtendedResponse;

    fn encode_request(self) -> (r: Result<(u8, Vec<u8>), DecodeError>)
        ensures
            self.1@.len() <= MAX_EXT_PAYLOAD ==> (r matches Ok(p) && p.0 == EXTENDED_COMMAND
                && p.1@ == spec_ext_packet(self.0, self.1@) && crc16_of(p.1@) == 0),
            self.1@.len() > MAX_EXT_PAYLOAD ==> r == Err::<(u8, Vec<u8>), DecodeError>(
                DecodeError::PacketLengthError,
            ),
    {
        match encode_extended_packet(self.0, self.1) {
            Ok(v) => Ok((EXTENDED_COMMAND, v)),
            Err(e) => Err(e),
        }
    }

    fn decode_response(command_id: u8, data: Vec<u8>) -> (r: Result<
        ExtendedResponse,
        DecodeError,
    >)
        ensures
            match r {
                Ok(resp) => spec_decode_extended(command_id, data@, true) == Ok::<_, DecodeError>(
                    (resp.0, resp.1@),
                ),
                Err(e) => spec_decode_extended(command_id, data@, true) == Err::<
                    (u8, Seq<u8>),
                    _,
                >(e),
            },
    {
        Extended::decode_extended(command_id, data, VexExtPacketChecks::all())
    }
}

} // verus!
