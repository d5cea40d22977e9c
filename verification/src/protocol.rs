//! The V5 protocol layer: the documented command bytes and the framing of
//! requests and responses over a byte stream.

use vstd::prelude::*;

use crate::checks::VexExtPacketChecks;
use crate::checksum::{crc16_of, crc16_xmodem};
use crate::commands::Simple;
use crate::errors::{spec_ack_from_u8, DecodeError, VexACKType};
use crate::io::ByteStream;
use crate::wire::{
    spec_ext_packet, spec_recv_ext_payload, spec_recv_simple_wf, spec_simple_packet,
    EXTENDED_COMMAND, MAX_EXT_PAYLOAD,
};

verus! {

/// The default timeout for receiving a response header.
pub const DEFAULT_TIMEOUT_MS: u64 = 5000;

/// The commands that can be sent to a V5 device, by their documented wire
/// bytes.
#[derive(Debug, Clone, Copy, PartialEq, Eq, Structural)]
pub enum VexDeviceCommand {
    /// `0x10`: switch the controller channel.
    SwitchChannel,
    /// `0x11`: open a file transfer.
    OpenFile,
    /// `0x12`: exit a file transfer.
    ExitFile,
    /// `0x13`: write file data.
    WriteFile,
    /// `0x14`: read file data.
    ReadFile,
    /// `0x15`: set the linked file name.
    SetLinkedFilename,
    /// `0x16`: count the directories on the device.
    GetDirectoryCount,
    /// `0x17`: file metadata by file index.
    GetMetadataByFileIndex,
    /// `0x18`: execute a program file.
    ExecuteFile,
    /// `0x19`: file metadata by file name.
    GetMetadataByFilename,
    /// `0x1A`: set file metadata.
    SetFileMetadata,
    /// `0x1B`: delete a file.
    DeleteFile,
    /// `0x27`: user serial read/write passthrough.
    SerialReadWrite,
    /// `0x56`: the extended-command envelope.
    Extended,
    /// `0xA4`: the system version query.
    GetSystemVersion,
}

impl VexDeviceCommand {
    /// The command's wire byte.
    pub open spec fn spec_u8(self) -> u8 {
        match self {
            VexDeviceCommand::SwitchChannel => 0x10,
            VexDeviceCommand::OpenFile => 0x11,
            VexDeviceCommand::ExitFile => 0x12,
            VexDeviceCommand::WriteFile => 0x13,
            VexDeviceCommand::ReadFile => 0x14,
            VexDeviceCommand::SetLinkedFilename => 0x15,
            VexDeviceCommand::GetDirectoryCount => 0x16,
            VexDeviceCommand::GetMetadataByFileIndex => 0x17,
            VexDeviceCommand::ExecuteFile => 0x18,
            VexDeviceCommand::GetMetadataByFilename => 0x19,
            VexDeviceCommand::SetFileMetadata => 0x1A,
            VexDeviceCommand::DeleteFile => 0x1B,
            VexDeviceCommand::SerialReadWrite => 0x27,
            VexDeviceCommand::Extended => 0x56,
            VexDeviceCommand::GetSystemVersion => 0xA4,
        }
    }

    /// The command a byte reads as, if it is documented.
    pub open spec fn spec_from_u8(v: u8) -> Option<VexDeviceCommand> {
        match v {
            0x10u8 => Some(VexDeviceCommand::SwitchChannel),
            0x11u8 => Some(VexDeviceCommand::OpenFile),
            0x12u8 => Some(VexDeviceCommand::ExitFile),
            0x13u8 => Some(VexDeviceCommand::WriteFile),
            0x14u8 => Some(VexDeviceCommand::ReadFile),
            0x15u8 => Some(VexDeviceCommand::SetLinkedFilename),
            0x16u8 => Some(VexDeviceCommand::GetDirectoryCount),
            0x17u8 => Some(VexDeviceCommand::GetMetadataByFileIndex),
            0x18u8 => Some(VexDeviceCommand::ExecuteFile),
            0x19u8 => Some(VexDeviceCommand::GetMetadataByFilename),
            0x1Au8 => Some(VexDeviceCommand::SetFileMetadata),
            0x1Bu8 => Some(VexDeviceCommand::DeleteFile),
            0x27u8 => Some(VexDeviceCommand::SerialReadWrite),
            0x56u8 => Some(VexDeviceCommand::Extended),
            0xA4u8 => Some(VexDeviceCommand::GetSystemVersion),
            _ => None,
        }
    }

    /// Converts the command to its wire byte.
    #[verifier::when_used_as_spec(spec_u8)]
    pub fn to_u8(self) -> (r: u8)
        ensures
            r == self.spec_u8(),
    {
        match self {
            VexDeviceCommand::SwitchChannel => 0x10,
            VexDeviceCommand::OpenFile => 0x11,
            VexDeviceCommand::ExitFile => 0x12,
            VexDeviceCommand::WriteFile => 0x13,
            VexDeviceCommand::ReadFile => 0x14,
            VexDeviceCommand::SetLinkedFilename => 0x15,
            VexDeviceCommand::GetDirectoryCount => 0x16,
            VexDeviceCommand::GetMetadataByFileIndex => 0x17,
            VexDeviceCommand::ExecuteFile => 0x18,
            VexDeviceCommand::GetMetadataByFilename => 0x19,
            VexDeviceCommand::SetFileMetadata => 0x1A,
            VexDeviceCommand::DeleteFile => 0x1B,
            VexDeviceCommand::SerialReadWrite => 0x27,
            VexDeviceCommand::Extended => 0x56,
            VexDeviceCommand::GetSystemVersion => 0xA4,
        }
    }

    /// Reads a command byte; a byte outside the documented set is `None`.
    #[verifier::when_used_as_spec(spec_from_u8)]
    pub fn from_u8(v: u8) -> (r: Option<Self>)
        ensures
            r == Self::spec_from_u8(v),
    {
        match v {
            0x10 => Some(VexDeviceCommand::SwitchChannel),
            0x11 => Some(VexDeviceCommand::OpenFile),
            0x12 => Some(VexDeviceCommand::ExitFile),
            0x13 => Some(VexDeviceCommand::WriteFile),
            0x14 => Some(VexDeviceCommand::ReadFile),
            0x15 => Some(VexDeviceCommand::SetLinkedFilename),
            0x16 => Some(VexDeviceCommand::GetDirectoryCount),
            0x17 => Some(VexDeviceCommand::GetMetadataByFileIndex),
            0x18 => Some(VexDeviceCommand::ExecuteFile),
            0x19 => Some(VexDeviceCommand::GetMetadataByFilename),
            0x1A => Some(VexDeviceCommand::SetFileMetadata),
            0x1B => Some(VexDeviceCommand::DeleteFile),
            0x27 => Some(VexDeviceCommand::SerialReadWrite),
            0x56 => Some(VexDeviceCommand::Extended),
            0xA4 => Some(VexDeviceCommand::GetSystemVersion),
            _ => None,
        }
    }
}

/// Reading a documented command byte and writing it back round-trips.
pub proof fn lemma_device_command_round_trip(b: u8)
    ensures
        VexDeviceCommand::spec_from_u8(b) matches Some(c) ==> c.spec_u8() == b,
{
}

/// The V5 protocol over a duplex byte stream.  The stream can be a serial
/// port, a socket, an in-memory replay, or anything else that carries
/// bytes; this layer does not care.
pub struct V5Protocol<T: ByteStream> {
    /// The wrapped byte stream.
    stream: T,
    /// The header-wait timeout handed to the stream on each receive.
    timeout_ms: u64,
}

impl<T: ByteStream> V5Protocol<T> {
    /// The bytes this protocol has handed to its stream for sending.
    pub closed spec fn spec_written(&self) -> Seq<u8> {
        self.stream.spec_written()
    }

    /// The bytes this protocol's stream has delivered to it.
    pub closed spec fn spec_taken(&self) -> Seq<u8> {
        self.stream.spec_taken()
    }

    /// The configured header-wait timeout.
    pub closed spec fn spec_timeout_ms(&self) -> u64 {
        self.timeout_ms
    }

    /// Wraps a stream.  Without an explicit timeout the default header
    /// timeout applies.
    pub fn new(wraps: T, timeout_ms: Option<u64>) -> (r: Self)
        ensures
            r.spec_written() == wraps.spec_written(),
            r.spec_timeout_ms() == match timeout_ms {
                Some(t) => t,
                None => DEFAULT_TIMEOUT_MS,
            },
    {
        let timeout_ms = match timeout_ms {
            Some(t) => t,
            None => DEFAULT_TIMEOUT_MS,
        };
        V5Protocol { stream: wraps, timeout_ms }
    }

    /// Gives the wrapped stream back.
    pub fn into_inner(self) -> (r: T)
        ensures
            r.spec_written() == self.spec_written(),
    {
        self.stream
    }

    /// Flushes the write buffer.
    pub fn flush(&mut self) -> (r: Result<(), DecodeError>)
        ensures
            final(self).spec_written() == old(self).spec_written(),
            final(self).spec_timeout_ms() == old(self).spec_timeout_ms(),
    {
        self.stream.flush()
    }

    /// Writes pre-encoded packet bytes to the stream and flushes them.
    pub(crate) fn send_raw(&mut self, packet: Vec<u8>) -> (r: Result<usize, DecodeError>)
        ensures
            r matches Ok(n) ==> n == packet@.len() && final(self).spec_written() == old(
                self,
            ).spec_written() + packet@,
            final(self).spec_timeout_ms() == old(self).spec_timeout_ms(),
    {
        match self.stream.write_all(packet.as_slice()) {
            Ok(u) => u,
            Err(e) => {
                return Err(e);
            },
        };
        match self.stream.flush() {
            Ok(u) => u,
            Err(e) => {
                return Err(e);
            },
        };
        Ok(packet.len())
    }

    /// Sends a simple packet: the host sync bytes, the command byte and
    /// the raw data, with no length encoding at this layer.  Returns how
    /// many bytes were written.
    pub fn send_simple(&mut self, command: VexDeviceCommand, data: Vec<u8>) -> (r: Result<
        usize,
        DecodeError,
    >)
        ensures
            r matches Ok(n) ==> n == 5 + data@.len() && final(self).spec_written() == old(
                self,
            ).spec_written() + spec_simple_packet(command.spec_u8(), data@),
            final(self).spec_timeout_ms() == old(self).spec_timeout_ms(),
    {
        let packet = Simple(command.to_u8(), data.as_slice()).encode_request();
        match self.stream.write_all(packet.as_slice()) {
            Ok(u) => u,
            Err(e) => {
                return Err(e);
            },
        };
        match self.stream.flush() {
            Ok(u) => u,
            Err(e) => {
                return Err(e);
            },
        };
        Ok(packet.len())
    }

    /// Sends an extended packet: the full envelope with the payload length
    /// and the trailing CRC-16.  Returns how many bytes were written.  A
    /// payload too long for the length encoding is rejected before any
    /// byte is sent.
    pub fn send_extended(&mut self, command: VexDeviceCommand, data: Vec<u8>) -> (r: Result<
        usize,
        DecodeError,
    >)
        ensures
            data@.len() <= MAX_EXT_PAYLOAD ==> (r matches Ok(n) ==> n == spec_ext_packet(
                command.spec_u8(),
                data@,
            ).len() && final(self).spec_written() == old(self).spec_written() + spec_ext_packet(
                command.spec_u8(),
                data@,
            )),
            data@.len() > MAX_EXT_PAYLOAD ==> r == Err::<usize, DecodeError>(
                DecodeError::PacketLengthError,
            ) && final(self).spec_written() == old(self).spec_written(),
            final(self).spec_timeout_ms() == old(self).spec_timeout_ms(),
    {
        let packet = match crate::commands::encode_extended_packet(
            command.to_u8(),
            data.as_slice(),
        ) {
            Ok(p) => p,
            Err(e) => {
                return Err(e);
            },
        };
        match self.stream.write_all(packet.as_slice()) {
            Ok(u) => u,
            Err(e) => {
                return Err(e);
            },
        };
        match self.stream.flush() {
            Ok(u) => u,
            Err(e) => {
                return Err(e);
            },
        };
        Ok(packet.len())
    }

    /// Receives one simple packet from the device.  On success the
    /// returned command, payload and raw packet fit the received-packet
    /// shape, the command byte is one of the documented commands, and the
    /// packet was framed at the first sync pair the stream delivered.
    pub fn receive_simple(&mut self) -> (r: Result<
        (VexDeviceCommand, Vec<u8>, Vec<u8>),
        DecodeError,
    >)
        ensures
            r matches Ok(resp) ==> spec_recv_simple_wf(resp.0.spec_u8(), resp.1@, resp.2@),
            r matches Ok(resp) ==> exists|skipped: Seq<u8>|
                #![auto]
                final(self).spec_taken() == old(self).spec_taken() + skipped + resp.2@
                    && !crate::wire::spec_contains_sync(skipped),
            final(self).spec_written() == old(self).spec_written(),
            final(self).spec_timeout_ms() == old(self).spec_timeout_ms(),
    {
        let resp = match Simple::decode_stream(&mut self.stream, self.timeout_ms) {
            Ok(resp) => resp,
            Err(e) => {
                return Err(e);
            },
        };
        let command = match VexDeviceCommand::from_u8(resp.0) {
            Some(c) => c,
            None => {
                return Err(DecodeError::UnknownCommand(resp.0));
            },
        };
        proof {
            lemma_device_command_round_trip(resp.0);
        }
        Ok((command, resp.1, resp.2))
    }

    /// Receives an extended packet, running the requested checks: the CRC
    /// check recomputes the CRC-16 over the whole raw packet, which must
    /// come to zero; the ACK check interprets the acknowledgement byte and
    /// reports any NACK as the specific device failure.  On success the
    /// returned command is the extended command id of the response, and the
    /// payload is the response data between the ACK byte and the CRC
    /// trailer.
    pub fn receive_extended(&mut self, should_check: VexExtPacketChecks) -> (r: Result<
        (VexDeviceCommand, Vec<u8>, Vec<u8>),
        DecodeError,
    >)
        ensures
            r matches Ok(resp) ==> ({
                let sp = spec_recv_ext_payload(resp.2@);
                &&& spec_recv_simple_wf(EXTENDED_COMMAND, sp, resp.2@)
                &&& sp.len() >= 4
                &&& resp.0.spec_u8() == sp[0]
                &&& resp.1@ == sp.subrange(2, sp.len() - 2)
                &&& (should_check.ack ==> spec_ack_from_u8(sp[1]) == Some(VexACKType::ACK))
                &&& (should_check.crc ==> crc16_of(resp.2@) == 0)
            }),
            final(self).spec_written() == old(self).spec_written(),
            final(self).spec_timeout_ms() == old(self).spec_timeout_ms(),
    {
        let resp = match Simple::decode_stream(&mut self.stream, self.timeout_ms) {
            Ok(resp) => resp,
            Err(e) => {
                return Err(e);
            },
        };
        if resp.0 != EXTENDED_COMMAND {
            return Err(DecodeError::ExpectedExtended);
        }
        proof {
            assert(spec_recv_ext_payload(resp.2@) == resp.1@);
        }
        if should_check.crc {
            let crc = crc16_xmodem(resp.2.as_slice());
            if crc != 0 {
                return Err(DecodeError::CrcError);
            }
        }
        if resp.1.len() < 1 {
            return Err(DecodeError::PacketLengthError);
        }
        let command = match VexDeviceCommand::from_u8(resp.1[0]) {
            Some(c) => c,
            None => {
                return Err(DecodeError::UnknownCommand(resp.1[0]));
            },
        };
        if should_check.ack {
            if resp.1.len() < 2 {
                return Err(DecodeError::PacketLengthError);
            }
            match VexACKType::from_u8(resp.1[1]) {
                Err(e) => {
                    return Err(e);
                },
                Ok(ack) => {
                    if ack != VexACKType::ACK {
                        return Err(DecodeError::NACK(ack));
                    }
                },
            }
        }
        if resp.1.len() < 4 {
            return Err(DecodeError::PacketLengthError);
        }
        let payload = vstd::slice::slice_to_vec(
            vstd::slice::slice_subrange(resp.1.as_slice(), 2, resp.1.len() - 2),
        );
        Ok((command, payload, resp.2))
    }
}

} // verus!
