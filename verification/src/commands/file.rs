//! The file-transfer commands: initializing a transfer, reading and writing
//! chunks, linking a file, and closing the transfer.

use vstd::bytes::{
    spec_u16_to_le_bytes, spec_u32_from_le_bytes, spec_u32_to_le_bytes, u16_to_le_bytes,
    u32_from_le_bytes, u16_from_le_bytes, u32_to_le_bytes,
};
use vstd::prelude::*;

use crate::checks::VexExtPacketChecks;
use crate::errors::DecodeError;
use crate::meta::{
    FileTransferComplete, FileTransferFunction, FileTransferOptions, FileTransferTarget,
    FileTransferType, FileTransferVID,
};
use crate::wire::{spec_ext_packet, EXTENDED_COMMAND, MAX_EXT_PAYLOAD};

use super::extended::{encode_extended_packet, spec_decode_extended, Extended};
use super::Command;

verus! {

/// The extended command id that initializes a file transfer.
pub const FILE_INIT_COMMAND: u8 = 0x11;

/// The extended command id that exits a file transfer.
pub const FILE_EXIT_COMMAND: u8 = 0x12;

/// The extended command id that writes file data.
pub const FILE_WRITE_COMMAND: u8 = 0x13;

/// The extended command id that reads file data.
pub const FILE_READ_COMMAND: u8 = 0x14;

/// The extended command id that sets the linked file name.
pub const FILE_SET_LINK_COMMAND: u8 = 0x15;

/// The smallest multiple of four that is at least `n`.  The device requires
/// transfer lengths aligned to four bytes.
pub open spec fn spec_pad4(n: int) -> int {
    if n % 4 == 0 {
        n
    } else {
        n + 4 - n % 4
    }
}

/// A byte sequence zero-padded up to the next multiple of four.
pub open spec fn spec_zero_pad4(d: Seq<u8>) -> Seq<u8> {
    d + Seq::new((spec_pad4(d.len() as int) - d.len()) as nat, |i: int| 0u8)
}

/// Initializes a file transfer between the brain and the host.
#[derive(Copy, Clone)]
pub struct FileTransferInit {
    /// Whether the transfer uploads to or downloads from the brain.
    pub function: FileTransferFunction,
    /// The storage the transfer targets.
    pub target: FileTransferTarget,
    /// Which software owns the file.
    pub vid: FileTransferVID,
    /// The transfer options.
    pub options: FileTransferOptions,
    /// The type tag of the file.
    pub file_type: FileTransferType,
    /// The length of the file.
    pub length: u32,
    /// The address of the transfer.
    pub addr: u32,
    /// The CRC-32 of the file contents.
    pub crc: u32,
    /// Seconds since the year 2000.
    pub timestamp: u32,
    /// The version of the file, one byte per component.
    pub version: u32,
    /// The file name, 24 NUL-padded bytes.
    pub name: [u8; 24],
}

/// The response to a file-transfer init: the negotiated transfer metadata.
#[derive(Copy, Clone, Debug, PartialEq, Eq, Structural)]
pub struct FileTransferInitResponse {
    /// The largest packet the device will accept in this transfer.
    pub max_packet_size: u16,
    /// The total size of the file being transferred.
    pub file_size: u32,
    /// The CRC-32 of the file contents.
    pub crc: u32,
}

/// The request payload of a file-transfer init: function, target, VID and
/// option bytes, then length, address and CRC as 32-bit little-endian
/// words, the four type-tag bytes, timestamp and version words, and the
/// 24-byte file name.
pub open spec fn spec_init_payload(c: FileTransferInit) -> Seq<u8> {
    seq![c.function.spec_u8(), c.target.spec_u8(), c.vid.spec_u8(), c.options.spec_bits()]
        + spec_u32_to_le_bytes(c.length) + spec_u32_to_le_bytes(c.addr) + spec_u32_to_le_bytes(
        c.crc,
    ) + c.file_type.spec_bytes() + spec_u32_to_le_bytes(c.timestamp) + spec_u32_to_le_bytes(
        c.version,
    ) + c.name@
}

/// What a file-transfer init response decodes to: the negotiated maximum
/// packet size, file size and CRC, little-endian at offsets 0, 2 and 6.
pub open spec fn spec_init_response(command_id: u8, data: Seq<u8>) -> Result<
    FileTransferInitResponse,
    DecodeError,
> {
    match spec_decode_extended(command_id, data, true) {
        Err(e) => Err(e),
        Ok((cmd, p)) => if cmd != FILE_INIT_COMMAND {
            Err(DecodeError::ExpectedCommand(FILE_INIT_COMMAND, cmd))
        } else if p.len() < 10 {
            Err(DecodeError::PacketLengthError)
        } else {
            Ok(
                FileTransferInitResponse {
                    max_packet_size: vstd::bytes::spec_u16_from_le_bytes(p.subrange(0, 2)),
                    file_size: spec_u32_from_le_bytes(p.subrange(2, 6)),
                    crc: spec_u32_from_le_bytes(p.subrange(6, 10)),
                },
            )
        },
    }
}

impl Command for FileTransferInit {
    type Response = FileTransferInitResponse;

    fn encode_request(self) -> (r: Result<(u8, Vec<u8>), DecodeError>)
        ensures
            r matches Ok(p) && p.0 == EXTENDED_COMMAND && p.1@ == spec_ext_packet(
                FILE_INIT_COMMAND,
                spec_init_payload(self),
            ),
    {
        proof {
            vstd::bytes::lemma_auto_spec_u32_to_from_le_bytes();
        }
        let mut payload: Vec<u8> = Vec::new();
        payload.push(self.function.to_u8());
        payload.push(self.target.to_u8());
        payload.push(self.vid.to_u8());
        payload.push(self.options.bits());
        let mut word = u32_to_le_bytes(self.length);
        payload.append(&mut word);
        let mut word = u32_to_le_bytes(self.addr);
        payload.append(&mut word);
        let mut word = u32_to_le_bytes(self.crc);
        payload.append(&mut word);
        let tag = self.file_type.to_bytes();
        crate::wire::push_slice(&mut payload, tag.as_slice());
        let mut word = u32_to_le_bytes(self.timestamp);
        payload.append(&mut word);
        let mut word = u32_to_le_bytes(self.version);
        payload.append(&mut word);
        crate::wire::push_slice(&mut payload, self.name.as_slice());
        proof {
            assert(payload@ =~= spec_init_payload(self));
            assert(payload@.len() == 52);
        }
        match encode_extended_packet(FILE_INIT_COMMAND, payload.as_slice()) {
            Ok(v) => Ok((EXTENDED_COMMAND, v)),
            Err(e) => Err(e),
        }
    }

    fn decode_response(command_id: u8, data: Vec<u8>) -> (r: Result<
        FileTransferInitResponse,
        DecodeError,
    >)
        ensures
            match r {
                Ok(v) => spec_init_response(command_id, data@) == Ok::<_, DecodeError>(v),
                Err(e) => spec_init_response(command_id, data@) == Err::<
                    FileTransferInitResponse,
                    _,
                >(e),
            },
    {
        let resp = match Extended::decode_extended(command_id, data, VexExtPacketChecks::all()) {
            Ok(resp) => resp,
            Err(e) => {
                return Err(e);
            },
        };
        if resp.0 != FILE_INIT_COMMAND {
            return Err(DecodeError::ExpectedCommand(FILE_INIT_COMMAND, resp.0));
        }
        let p = resp.1;
        if p.len() < 10 {
            return Err(DecodeError::PacketLengthError);
        }
        let max_packet_size = u16_from_le_bytes(vstd::slice::slice_subrange(p.as_slice(), 0, 2));
        let file_size = u32_from_le_bytes(vstd::slice::slice_subrange(p.as_slice(), 2, 6));
        let crc = u32_from_le_bytes(vstd::slice::slice_subrange(p.as_slice(), 6, 10));
        Ok(FileTransferInitResponse { max_packet_size, file_size, crc })
    }
}

/// Exits a file transfer.  The field is the action the brain runs once the
/// transfer is complete.
#[derive(Copy, Clone)]
pub struct FileTransferExit(pub FileTransferComplete);

/// What a file-transfer exit response decodes to: nothing, once the
/// envelope and command id check out.
pub open spec fn spec_exit_response(command_id: u8, data: Seq<u8>) -> Result<(), DecodeError> {
    match spec_decode_extended(command_id, data, true) {
        Err(e) => Err(e),
        Ok((cmd, _p)) => if cmd != FILE_EXIT_COMMAND {
            Err(DecodeError::ExpectedCommand(FILE_EXIT_COMMAND, cmd))
        } else {
            Ok(())
        },
    }
}

impl Command for FileTransferExit {
    type Response = ();

    fn encode_request(self) -> (r: Result<(u8, Vec<u8>), DecodeError>)
        ensures
            r matches Ok(p) && p.0 == EXTENDED_COMMAND && p.1@ == spec_ext_packet(
                FILE_EXIT_COMMAND,
                seq![self.0.spec_u8()],
            ),
    {
        let mut payload: Vec<u8> = Vec::new();
        payload.push(self.0.to_u8());
        assert(payload@ =~= seq![self.0.spec_u8()]);
        match encode_extended_packet(FILE_EXIT_COMMAND, payload.as_slice()) {
            Ok(v) => Ok((EXTENDED_COMMAND, v)),
            Err(e) => Err(e),
        }
    }

    fn decode_response(command_id: u8, data: Vec<u8>) -> (r: Result<(), DecodeError>)
        ensures
            match r {
                Ok(u) => spec_exit_response(command_id, data@) == Ok::<(), DecodeError>(u),
                Err(e) => spec_exit_response(command_id, data@) == Err::<(), _>(e),
            },
    {
        let resp = match Extended::decode_extended(command_id, data, VexExtPacketChecks::all()) {
            Ok(resp) => resp,
            Err(e) => {
                return Err(e);
            },
        };
        if resp.0 != FILE_EXIT_COMMAND {
            return Err(DecodeError::ExpectedCommand(FILE_EXIT_COMMAND, resp.0));
        }
        Ok(())
    }
}

/// Sets the linked file of the current transfer: the 24-byte linked file
/// name, its VID, and the transfer options.
#[derive(Copy, Clone)]
pub struct FileTransferSetLink(pub [u8; 24], pub FileTransferVID, pub FileTransferOptions);

/// The request payload of a set-link: the VID byte, the options byte, and
/// the 24-byte linked file name.
pub open spec fn spec_set_link_payload(c: FileTransferSetLink) -> Seq<u8> {
    seq![c.1.spec_u8(), c.2.spec_bits()] + c.0@
}

/// What a set-link response decodes to: nothing, once the envelope and
/// command id check out.
pub open spec fn spec_set_link_response(command_id: u8, data: Seq<u8>) -> Result<
    (),
    DecodeError,
> {
    match spec_decode_extended(command_id, data, true) {
        Err(e) => Err(e),
        Ok((cmd, _p)) => if cmd != FILE_SET_LINK_COMMAND {
            Err(DecodeError::ExpectedCommand(FILE_SET_LINK_COMMAND, cmd))
        } else {
            Ok(())
        },
    }
}

impl Command for FileTransferSetLink {
    type Response = ();

    fn encode_request(self) -> (r: Result<(u8, Vec<u8>), DecodeError>)
        ensures
            r matches Ok(p) && p.0 == EXTENDED_COMMAND && p.1@ == spec_ext_packet(
                FILE_SET_LINK_COMMAND,
                spec_set_link_payload(self),
            ),
    {
        let mut payload: Vec<u8> = Vec::new();
        payload.push(self.1.to_u8());
        payload.push(self.2.bits());
        crate::wire::push_slice(&mut payload, self.0.as_slice());
        proof {
            assert(payload@ =~= spec_set_link_payload(self));
        }
        match encode_extended_packet(FILE_SET_LINK_COMMAND, payload.as_slice()) {
            Ok(v) => Ok((EXTENDED_COMMAND, v)),
            Err(e) => Err(e),
        }
    }

    fn decode_response(command_id: u8, data: Vec<u8>) -> (r: Result<(), DecodeError>)
        ensures
            match r {
                Ok(u) => spec_set_link_response(command_id, data@) == Ok::<(), DecodeError>(u),
                Err(e) => spec_set_link_response(command_id, data@) == Err::<(), _>(e),
            },
    {
        let resp = match Extended::decode_extended(command_id, data, VexExtPacketChecks::all()) {
            Ok(resp) => resp,
            Err(e) => {
                return Err(e);
            },
        };
        if resp.0 != FILE_SET_LINK_COMMAND {
            return Err(DecodeError::ExpectedCommand(FILE_SET_LINK_COMMAND, resp.0));
        }
        Ok(())
    }
}

/// Reads data from a file transfer: the address to read at, and how many
/// bytes.  The count is rounded up to a multiple of four on the wire.
#[derive(Copy, Clone)]
pub struct FileTransferRead(pub u32, pub u16);

/// The request payload of a file read: the address as a 32-bit
/// little-endian word, then the byte count, rounded up to a multiple of
/// four, as a 16-bit little-endian word.
pub open spec fn spec_read_payload(addr: u32, n_bytes: u16) -> Seq<u8> {
    spec_u32_to_le_bytes(addr) + spec_u16_to_le_bytes((spec_pad4(n_bytes as int)) as u16)
}

/// What a file-read response decodes to: the raw payload, which carries
/// the echoed address and the data.  The ACK byte position is skipped but
/// not interpreted for reads.
pub open spec fn spec_read_response(command_id: u8, data: Seq<u8>) -> Result<
    Seq<u8>,
    DecodeError,
> {
    match spec_decode_extended(command_id, data, false) {
        Err(e) => Err(e),
        Ok((cmd, p)) => if cmd != FILE_READ_COMMAND {
            Err(DecodeError::ExpectedCommand(FILE_READ_COMMAND, cmd))
        } else {
            Ok(p)
        },
    }
}

impl Command for FileTransferRead {
    type Response = Vec<u8>;

    /// Encodes the read request.  The byte count sent on the wire is
    /// always a multiple of four; a count whose padding would not fit in
    /// sixteen bits is rejected.
    fn encode_request(self) -> (r: Result<(u8, Vec<u8>), DecodeError>)
        ensures
            self.1 <= 0xFFFC ==> (r matches Ok(p) && p.0 == EXTENDED_COMMAND && p.1@
                == spec_ext_packet(FILE_READ_COMMAND, spec_read_payload(self.0, self.1))
                && spec_pad4(self.1 as int) % 4 == 0),
            self.1 > 0xFFFC ==> r == Err::<(u8, Vec<u8>), DecodeError>(
                DecodeError::PacketLengthError,
            ),
    {
        if self.1 > 0xFFFC {
            return Err(DecodeError::PacketLengthError);
        }
        let n_bytes: u16 = if self.1 % 4 == 0 {
            self.1
        } else {
            self.1 + 4 - self.1 % 4
        };
        proof {
            vstd::bytes::lemma_auto_spec_u32_to_from_le_bytes();
            vstd::bytes::lemma_auto_spec_u16_to_from_le_bytes();
        }
        let mut payload = u32_to_le_bytes(self.0);
        let mut count = u16_to_le_bytes(n_bytes);
        payload.append(&mut count);
        proof {
            assert(payload@ =~= spec_read_payload(self.0, self.1));
        }
        match encode_extended_packet(FILE_READ_COMMAND, payload.as_slice()) {
            Ok(v) => Ok((EXTENDED_COMMAND, v)),
            Err(e) => Err(e),
        }
    }

    /// Decodes the read response with the CRC and length profile: the ACK
    /// byte is skipped, not interpreted, since the data is the payload.
    fn decode_response(command_id: u8, data: Vec<u8>) -> (r: Result<Vec<u8>, DecodeError>)
        ensures
            match r {
                Ok(v) => spec_read_response(command_id, data@) == Ok::<_, DecodeError>(v@),
                Err(e) => spec_read_response(command_id, data@) == Err::<Seq<u8>, _>(e),
            },
    {
        let resp = match Extended::decode_extended(
            command_id,
            data,
            VexExtPacketChecks { ack: false, crc: true, length: true },
        ) {
            Ok(resp) => resp,
            Err(e) => {
                return Err(e);
            },
        };
        if resp.0 != FILE_READ_COMMAND {
            return Err(DecodeError::ExpectedCommand(FILE_READ_COMMAND, resp.0));
        }
        Ok(resp.1)
    }
}

/// Writes data to a file transfer: the address to write at, and the data.
/// The data is zero-padded to a multiple of four on the wire.
#[derive(Copy, Clone)]
pub struct FileTransferWrite<'a>(pub u32, pub &'a [u8]);

/// The request payload of a file write: the address as a 32-bit
/// little-endian word, then the data zero-padded to a multiple of four.
pub open spec fn spec_write_payload(addr: u32, data: Seq<u8>) -> Seq<u8> {
    spec_u32_to_le_bytes(addr) + spec_zero_pad4(data)
}

/// What a file-write response decodes to: nothing, once the envelope and
/// command id check out.
pub open spec fn spec_write_response(command_id: u8, data: Seq<u8>) -> Result<(), DecodeError> {
    match spec_decode_extended(command_id, data, true) {
        Err(e) => Err(e),
        Ok((cmd, _p)) => if cmd != FILE_WRITE_COMMAND {
            Err(DecodeError::ExpectedCommand(FILE_WRITE_COMMAND, cmd))
        } else {
            Ok(())
        },
    }
}

impl<'a> Command for FileTransferWrite<'a> {
    type Response = ();

    /// Encodes the write request.  The transmitted payload is the address
    /// followed by the data padded with zeros to a multiple of four, so its
    /// length is always a multiple of four; data too long for the packet
    /// length encoding is rejected.
    fn encode_request(self) -> (r: Result<(u8, Vec<u8>), DecodeError>)
        ensures
            self.1@.len() <= 0x7FF8 ==> (r matches Ok(p) && p.0 == EXTENDED_COMMAND && p.1@
                == spec_ext_packet(FILE_WRITE_COMMAND, spec_write_payload(self.0, self.1@))
                && spec_zero_pad4(self.1@).len() % 4 == 0),
            self.1@.len() > 0x7FF8 ==> r == Err::<(u8, Vec<u8>), DecodeError>(
                DecodeError::PacketLengthError,
            ),
    {
        if self.1.len() > 0x7FF8 {
            return Err(DecodeError::PacketLengthError);
        }
        proof {
            vstd::bytes::lemma_auto_spec_u32_to_from_le_bytes();
        }
        let mut payload = u32_to_le_bytes(self.0);
        crate::wire::push_slice(&mut payload, self.1);
        let target: usize = if self.1.len() % 4 == 0 {
            self.1.len()
        } else {
            self.1.len() + 4 - self.1.len() % 4
        };
        while payload.len() < 4 + target
            invariant
                payload@.len() <= 4 + target,
                payload@ == spec_u32_to_le_bytes(self.0) + self.1@ + Seq::new(
                    (payload@.len() - 4 - self.1@.len()) as nat,
                    |i: int| 0u8,
                ),
                target == spec_pad4(self.1@.len() as int),
                4 + target <= 0x7FFC,
            decreases 4 + target - payload@.len(),
        {
            payload.push(0);
            proof {
                vstd::bytes::lemma_auto_spec_u32_to_from_le_bytes();
                assert(payload@ =~= spec_u32_to_le_bytes(self.0) + self.1@ + Seq::new(
                    (payload@.len() - 4 - self.1@.len()) as nat,
                    |i: int| 0u8,
                ));
            }
        }
        proof {
            assert(payload@ =~= spec_write_payload(self.0, self.1@));
        }
        match encode_extended_packet(FILE_WRITE_COMMAND, payload.as_slice()) {
            Ok(v) => Ok((EXTENDED_COMMAND, v)),
            Err(e) => Err(e),
        }
    }

    fn decode_response(command_id: u8, data: Vec<u8>) -> (r: Result<(), DecodeError>)
        ensures
            match r {
                Ok(u) => spec_write_response(command_id, data@) == Ok::<(), DecodeError>(u),
                Err(e) => spec_write_response(command_id, data@) == Err::<(), _>(e),
            },
    {
        let resp = match Extended::decode_extended(command_id, data, VexExtPacketChecks::all()) {
            Ok(resp) => resp,
            Err(e) => {
                return Err(e);
            },
        };
        if resp.0 != FILE_WRITE_COMMAND {
            return Err(DecodeError::ExpectedCommand(FILE_WRITE_COMMAND, resp.0));
        }
        Ok(())
    }
}

} // verus!
