//! A connected V5 device: the command layer over the protocol, the
//! device-level requests (version, channel, serial passthrough, file
//! operations), and the pure parsers for their responses.

use vstd::bytes::{
    spec_u16_from_le_bytes, spec_u32_from_le_bytes, spec_u32_to_le_bytes, u16_from_le_bytes,
    u32_from_le_bytes, u32_to_le_bytes,
};
use vstd::prelude::*;
use vstd::string::StringSliceAdditionalSpecFns;

pub mod file;
pub mod handle;

use crate::checks::VexExtPacketChecks;
use crate::commands::{Command, Simple};
use crate::errors::{DecodeError, DeviceError};
use crate::io::ByteStream;
use crate::meta::V5ControllerChannel;
use crate::protocol::{V5Protocol, VexDeviceCommand};
use crate::wire::{spec_ext_packet, EXTENDED_COMMAND, MAX_EXT_PAYLOAD};

use file::{
    VexFileMetadataByIndex, VexFileMetadataByName, VexFileMetadataSet, VexFileMode,
    VexFileTarget, VexFiletransferFinished, VexFiletransferMetadata, VexInitialFileMetadata,
    VexVID,
};

verus! {

/// The flags byte a V5 brain reports.  No flags are documented.
pub use crate::meta::V5BrainFlags;
pub use crate::meta::V5ControllerFlags;

/// The product a device identifies as, with its capability flags.
#[derive(Debug, Clone, Copy, PartialEq, Eq, Structural)]
pub enum VexProduct {
    /// A V5 robot brain.
    V5Brain(V5BrainFlags),
    /// A V5 robot controller.
    V5Controller(V5ControllerFlags),
}

/// The version a V5 device reports: five version bytes and the product.
#[derive(Debug, Clone, Copy, PartialEq, Eq)]
pub struct V5DeviceVersion {
    /// The five version bytes, most significant first.
    pub system_version: (u8, u8, u8, u8, u8),
    /// The product and its capability flags.
    pub product_type: VexProduct,
}

/// What a raw system-version payload parses to, if its product byte is
/// documented.  Undocumented flag bits read as no flags.
pub open spec fn spec_device_version(p: Seq<u8>) -> Result<V5DeviceVersion, DecodeError> {
    if p.len() < 7 {
        Err(DecodeError::PacketLengthError)
    } else {
        match crate::meta::spec_product_from_bytes(p[5], p[6]) {
            Some(prod) => Ok(
                V5DeviceVersion {
                    system_version: (p[0], p[1], p[2], p[3], p[4]),
                    product_type: match prod {
                        crate::meta::VexProductType::V5Brain(f) => VexProduct::V5Brain(f),
                        crate::meta::VexProductType::V5Controller(f) => VexProduct::V5Controller(
                            f,
                        ),
                    },
                },
            ),
            None => Err(DecodeError::DeviceError(DeviceError::InvalidDevice)),
        }
    }
}

/// Parses the payload of a system-version response: five version bytes,
/// the product byte, and the flags byte.
pub fn parse_device_version(p: &[u8]) -> (r: Result<V5DeviceVersion, DecodeError>)
    ensures
        r == spec_device_version(p@),
{
    if p.len() < 7 {
        return Err(DecodeError::PacketLengthError);
    }
    let product = match crate::meta::VexProductType::try_from_bytes(
        *vstd::slice::slice_index_get(p, 5),
        *vstd::slice::slice_index_get(p, 6),
    ) {
        Ok(prod) => prod,
        Err(e) => {
            return Err(DecodeError::DeviceError(e));
        },
    };
    Ok(
        V5DeviceVersion {
            system_version: (
                *vstd::slice::slice_index_get(p, 0),
                *vstd::slice::slice_index_get(p, 1),
                *vstd::slice::slice_index_get(p, 2),
                *vstd::slice::slice_index_get(p, 3),
                *vstd::slice::slice_index_get(p, 4),
            ),
            product_type: match product {
                crate::meta::VexProductType::V5Brain(f) => VexProduct::V5Brain(f),
                crate::meta::VexProductType::V5Controller(f) => VexProduct::V5Controller(f),
            },
        },
    )
}

/// A file name as it travels on the wire: truncated to 24 bytes or
/// NUL-padded up to them.
pub open spec fn spec_name24(b: Seq<u8>) -> Seq<u8> {
    if b.len() >= 24 {
        b.subrange(0, 24)
    } else {
        b + Seq::new((24 - b.len()) as nat, |i: int| 0u8)
    }
}

/// Converts a file name to its 24 wire bytes, NUL-padded or truncated.
/// Only ASCII names can travel on the wire; anything else is rejected.
pub fn name_to_bytes(name: &str) -> (r: Result<Vec<u8>, DecodeError>)
    ensures
        name.is_ascii() ==> (r matches Ok(v) && v@ == spec_name24(name.spec_bytes())),
        !name.is_ascii() ==> r == Err::<Vec<u8>, DecodeError>(DecodeError::NotAscii),
{
    if !name.is_ascii() {
        return Err(DecodeError::NotAscii);
    }
    let b = name.as_bytes();
    let mut out: Vec<u8> = Vec::new();
    let mut i: usize = 0;
    while i < 24
        invariant
            i <= 24,
            out@.len() == i,
            forall|j: int|
                0 <= j < i ==> out@[j] == (if j < b@.len() {
                    b@[j]
                } else {
                    0u8
                }),
        decreases 24 - i,
    {
        if i < b.len() {
            out.push(*vstd::slice::slice_index_get(b, i));
        } else {
            out.push(0);
        }
        i = i + 1;
    }
    proof {
        assert(out@ =~= spec_name24(b@));
    }
    Ok(out)
}

/// The function, target and overwrite bytes of a file mode: upload is `1`
/// and download `2`; the overwrite flag becomes bit one of the options.
pub open spec fn spec_file_mode_bytes(m: VexFileMode) -> (u8, u8, u8) {
    match m {
        VexFileMode::Upload(t, o) => (
            1u8,
            t.spec_u8(),
            if o {
                1u8
            } else {
                0u8
            },
        ),
        VexFileMode::Download(t, o) => (
            2u8,
            t.spec_u8(),
            if o {
                1u8
            } else {
                0u8
            },
        ),
    }
}

/// Converts a file mode to its function, target and overwrite bytes.
fn file_mode_bytes(m: VexFileMode) -> (r: (u8, u8, u8))
    ensures
        r == spec_file_mode_bytes(m),
{
    match m {
        VexFileMode::Upload(t, o) => (
            1u8,
            t.to_u8(),
            if o {
                1u8
            } else {
                0u8
            },
        ),
        VexFileMode::Download(t, o) => (
            2u8,
            t.to_u8(),
            if o {
                1u8
            } else {
                0u8
            },
        ),
    }
}

/// The request payload that opens a file transfer: function, target, VID
/// and combined option bytes, then length, address and CRC words, the
/// type tag, timestamp and version words, and the 24-byte name.
pub open spec fn spec_open_payload(m: VexInitialFileMetadata, name24: Seq<u8>) -> Seq<u8> {
    let ft = spec_file_mode_bytes(m.function);
    seq![ft.0, ft.1, m.vid.spec_u8(), m.options | ft.2] + spec_u32_to_le_bytes(m.length)
        + spec_u32_to_le_bytes(m.addr) + spec_u32_to_le_bytes(m.crc) + m.file_type@
        + spec_u32_to_le_bytes(m.timestamp) + spec_u32_to_le_bytes(m.version) + name24
}

/// The request payload that sets the linked file name: the VID byte, the
/// combined option byte, and the 24-byte name.
pub open spec fn spec_link_payload(m: VexInitialFileMetadata, name24: Seq<u8>) -> Seq<u8> {
    let ft = spec_file_mode_bytes(m.function);
    seq![m.vid.spec_u8(), m.options | ft.2] + name24
}

/// The request payload of the by-name metadata operations, delete, and
/// execute: the VID byte, the option byte, and the 24-byte name.
pub open spec fn spec_vid_options_name_payload(vid: u8, options: u8, name24: Seq<u8>) -> Seq<
    u8,
> {
    seq![vid, options] + name24
}

/// The request payload that sets program file metadata: the VID and
/// option bytes, the address word, the type tag, the timestamp and
/// version words, and the 24-byte name.
pub open spec fn spec_set_metadata_payload(m: VexFileMetadataSet, name24: Seq<u8>) -> Seq<u8> {
    seq![m.vid, m.options] + spec_u32_to_le_bytes(m.addr) + m.file_type@ + spec_u32_to_le_bytes(
        m.timestamp,
    ) + spec_u32_to_le_bytes(m.version) + name24
}

/// Parses a by-index metadata response payload: the index byte, then
/// size, address and CRC words, the type tag, timestamp and version
/// words, and the 24-byte file name.
pub fn parse_metadata_by_index(p: &[u8]) -> (r: Result<VexFileMetadataByIndex, DecodeError>)
    ensures
        match r {
            Ok(v) => p@.len() >= 49 && v.idx == p@[0] && v.size == spec_u32_from_le_bytes(
                p@.subrange(1, 5),
            ) && v.addr == spec_u32_from_le_bytes(p@.subrange(5, 9)) && v.crc
                == spec_u32_from_le_bytes(p@.subrange(9, 13)) && v.file_type@ == p@.subrange(
                13,
                17,
            ) && v.timestamp == spec_u32_from_le_bytes(p@.subrange(17, 21)) && v.version
                == spec_u32_from_le_bytes(p@.subrange(21, 25)) && v.filename@ == p@.subrange(
                25,
                49,
            ),
            Err(e) => p@.len() < 49 && e == DecodeError::PacketLengthError,
        },
{
    if p.len() < 49 {
        return Err(DecodeError::PacketLengthError);
    }
    Ok(
        VexFileMetadataByIndex {
            idx: *vstd::slice::slice_index_get(p, 0),
            size: u32_from_le_bytes(vstd::slice::slice_subrange(p, 1, 5)),
            addr: u32_from_le_bytes(vstd::slice::slice_subrange(p, 5, 9)),
            crc: u32_from_le_bytes(vstd::slice::slice_subrange(p, 9, 13)),
            file_type: [
                *vstd::slice::slice_index_get(p, 13),
                *vstd::slice::slice_index_get(p, 14),
                *vstd::slice::slice_index_get(p, 15),
                *vstd::slice::slice_index_get(p, 16),
            ],
            timestamp: u32_from_le_bytes(vstd::slice::slice_subrange(p, 17, 21)),
            version: u32_from_le_bytes(vstd::slice::slice_subrange(p, 21, 25)),
            filename: vstd::slice::slice_to_vec(vstd::slice::slice_subrange(p, 25, 49)),
        },
    )
}

/// Parses a by-name metadata response payload: the linked VID byte, then
/// the same fields as the by-index record, ending in the linked name.
pub fn parse_metadata_by_name(p: &[u8]) -> (r: Result<VexFileMetadataByName, DecodeError>)
    ensures
        match r {
            Ok(v) => p@.len() >= 49 && v.linked_vid == p@[0] && v.size
                == spec_u32_from_le_bytes(p@.subrange(1, 5)) && v.addr
                == spec_u32_from_le_bytes(p@.subrange(5, 9)) && v.crc == spec_u32_from_le_bytes(
                p@.subrange(9, 13),
            ) && v.file_type@ == p@.subrange(13, 17) && v.timestamp == spec_u32_from_le_bytes(
                p@.subrange(17, 21),
            ) && v.version == spec_u32_from_le_bytes(p@.subrange(21, 25)) && v.linked_filename@
                == p@.subrange(25, 49),
            Err(e) => p@.len() < 49 && e == DecodeError::PacketLengthError,
        },
{
    if p.len() < 49 {
        return Err(DecodeError::PacketLengthError);
    }
    Ok(
        VexFileMetadataByName {
            linked_vid: *vstd::slice::slice_index_get(p, 0),
            size: u32_from_le_bytes(vstd::slice::slice_subrange(p, 1, 5)),
            addr: u32_from_le_bytes(vstd::slice::slice_subrange(p, 5, 9)),
            crc: u32_from_le_bytes(vstd::slice::slice_subrange(p, 9, 13)),
            file_type: [
                *vstd::slice::slice_index_get(p, 13),
                *vstd::slice::slice_index_get(p, 14),
                *vstd::slice::slice_index_get(p, 15),
                *vstd::slice::slice_index_get(p, 16),
            ],
            timestamp: u32_from_le_bytes(vstd::slice::slice_subrange(p, 17, 21)),
            version: u32_from_le_bytes(vstd::slice::slice_subrange(p, 21, 25)),
            linked_filename: vstd::slice::slice_to_vec(vstd::slice::slice_subrange(p, 25, 49)),
        },
    )
}

/// What a directory-count payload parses to: a signed 16-bit count,
/// little-endian.
pub open spec fn spec_directory_count(p: Seq<u8>) -> Result<i16, DecodeError> {
    if p.len() < 2 {
        Err(DecodeError::PacketLengthError)
    } else {
        let u = spec_u16_from_le_bytes(p.subrange(0, 2));
        Ok(
            if u < 0x8000 {
                u as i16
            } else {
                (u - 0x10000) as i16
            },
        )
    }
}

/// Parses a directory-count response payload.
pub fn parse_directory_count(p: &[u8]) -> (r: Result<i16, DecodeError>)
    ensures
        r == spec_directory_count(p@),
{
    if p.len() < 2 {
        return Err(DecodeError::PacketLengthError);
    }
    let raw = u16_from_le_bytes(vstd::slice::slice_subrange(p, 0, 2));
    if raw < 0x8000 {
        Ok(raw as i16)
    } else {
        Ok(-1 - ((0xFFFFu16 - raw) as i16))
    }
}

/// A connected V5 device: the protocol over the system port, an optional
/// user port, and the buffer for user serial reads over the system port.
pub struct Device<S: ByteStream, U: ByteStream> {
    protocol: V5Protocol<S>,
    user_port: Option<U>,
    read_buffer: Vec<u8>,
    user_read_size: u8,
}

impl<S: ByteStream, U: ByteStream> Device<S, U> {
    /// The bytes this device has handed to its system port for sending.
    pub closed spec fn spec_written(&self) -> Seq<u8> {
        self.protocol.spec_written()
    }

    /// The buffered user serial bytes not yet handed out.
    pub closed spec fn spec_read_buffer(&self) -> Seq<u8> {
        self.read_buffer@
    }

    /// The configured chunk size for user serial reads.
    pub closed spec fn spec_user_read_size(&self) -> u8 {
        self.user_read_size
    }

    /// Wraps the system port, and the user port if there is one.  By
    /// default user serial is read in chunks of 32 bytes.
    pub fn new(system: S, user: Option<U>) -> (r: Self)
        ensures
            r.spec_written() == system.spec_written(),
            r.spec_read_buffer() == Seq::<u8>::empty(),
            r.spec_user_read_size() == 0x20u8,
    {
        Device {
            protocol: V5Protocol::new(system, None),
            user_port: user,
            read_buffer: Vec::new(),
            user_read_size: 0x20,
        }
    }

    /// Takes the device apart, giving back the system port and the user
    /// port.
    pub fn into_ports(self) -> (r: (S, Option<U>))
        ensures
            r.0.spec_written() == self.spec_written(),
    {
        (self.protocol.into_inner(), self.user_port)
    }

    /// Updates the size of the chunks read from the system port when no
    /// user port is available.
    pub fn update_user_read_size(&mut self, user_read_size: u8)
        ensures
            final(self).spec_user_read_size() == user_read_size,
            final(self).spec_written() == old(self).spec_written(),
            final(self).spec_read_buffer() == old(self).spec_read_buffer(),
    {
        self.user_read_size = user_read_size;
    }

    /// Sends a command: an extended command's bytes already carry the full
    /// envelope; anything else is wrapped in a simple packet.
    pub fn send_command<C: Command + Copy>(&mut self, command: C) -> (r: Result<
        (),
        DecodeError,
    >)
        ensures
            final(self).spec_read_buffer() == old(self).spec_read_buffer(),
            final(self).spec_user_read_size() == old(self).spec_user_read_size(),
    {
        let encoded = match command.encode_request() {
            Ok(p) => p,
            Err(e) => {
                return Err(e);
            },
        };
        let packet = if encoded.0 == EXTENDED_COMMAND {
            encoded.1
        } else {
            Simple(encoded.0, encoded.1.as_slice()).encode_request()
        };
        match self.protocol.send_raw(packet) {
            Ok(_) => Ok(()),
            Err(e) => Err(e),
        }
    }

    /// Receives and decodes the response for a command.  The packet CRC is
    /// verified for extended responses before the command decodes them.
    pub fn response_for<C: Command + Copy>(&mut self) -> (r: Result<C::Response, DecodeError>)
        ensures
            final(self).spec_written() == old(self).spec_written(),
            final(self).spec_read_buffer() == old(self).spec_read_buffer(),
            final(self).spec_user_read_size() == old(self).spec_user_read_size(),
    {
        let resp = match self.protocol.receive_simple() {
            Ok(resp) => resp,
            Err(e) => {
                return Err(e);
            },
        };
        if resp.0 == VexDeviceCommand::Extended {
            let crc = crate::checksum::crc16_xmodem(resp.2.as_slice());
            if crc != 0 {
                return Err(DecodeError::CrcError);
            }
        }
        C::decode_response(resp.0.to_u8(), resp.1)
    }

    /// Sends a command and receives its response.
    pub fn send_request<C: Command + Copy>(&mut self, command: C) -> (r: Result<
        C::Response,
        DecodeError,
    >)
        ensures
            final(self).spec_read_buffer() == old(self).spec_read_buffer(),
            final(self).spec_user_read_size() == old(self).spec_user_read_size(),
    {
        match self.send_command(command) {
            Ok(u) => u,
            Err(e) => {
                return Err(e);
            },
        };
        self.response_for::<C>()
    }

    /// True when the device identifies as a controller.
    pub fn is_controller(&mut self) -> (r: Result<bool, DecodeError>)
        ensures
            r matches Ok(b) ==> final(self).spec_written() == old(self).spec_written()
                + crate::wire::spec_simple_packet(
                VexDeviceCommand::GetSystemVersion.spec_u8(),
                Seq::<u8>::empty(),
            ),
    {
        let version = match self.get_device_version() {
            Ok(v) => v,
            Err(e) => {
                return Err(e);
            },
        };
        match version.product_type {
            VexProduct::V5Brain(_) => Ok(false),
            VexProduct::V5Controller(_) => Ok(true),
        }
    }

    /// Requests the device's version over the bare system-version simple
    /// command and parses the response payload.
    pub fn get_device_version(&mut self) -> (r: Result<V5DeviceVersion, DecodeError>)
        ensures
            r matches Ok(v) ==> final(self).spec_written() == old(self).spec_written()
                + crate::wire::spec_simple_packet(
                VexDeviceCommand::GetSystemVersion.spec_u8(),
                Seq::<u8>::empty(),
            ),
    {
        match self.protocol.send_simple(VexDeviceCommand::GetSystemVersion, Vec::new()) {
            Ok(n) => n,
            Err(e) => {
                return Err(e);
            },
        };
        let resp = match self.protocol.receive_simple() {
            Ok(resp) => resp,
            Err(e) => {
                return Err(e);
            },
        };
        parse_device_version(resp.1.as_slice())
    }

    /// Switches the controller channel, when the device is a controller; a
    /// brain has no channels and the request is skipped.  Without an
    /// explicit channel the pit channel is restored.
    pub fn switch_channel(&mut self, channel: Option<V5ControllerChannel>) -> (r: Result<
        (),
        DecodeError,
    >)
    {
        let version = match self.get_device_version() {
            Ok(v) => v,
            Err(e) => {
                return Err(e);
            },
        };
        match version.product_type {
            VexProduct::V5Controller(_) => {
                let channel = match channel {
                    Some(c) => c,
                    None => V5ControllerChannel::Pit,
                };
                let mut data: Vec<u8> = Vec::new();
                data.push(channel.to_u8());
                match self.protocol.send_extended(VexDeviceCommand::SwitchChannel, data) {
                    Ok(n) => n,
                    Err(e) => {
                        return Err(e);
                    },
                };
                match self.protocol.receive_extended(VexExtPacketChecks::all()) {
                    Ok(_) => Ok(()),
                    Err(e) => Err(e),
                }
            },
            VexProduct::V5Brain(_) => Ok(()),
        }
    }

    /// Reads user program serial output.  When the buffer holds fewer than
    /// `n_bytes`, one serial passthrough request is made on the download
    /// channel for up to 64 bytes (less if the configured read size is
    /// smaller); the first response byte is an echo and is dropped.  Up to
    /// `n_bytes` buffered bytes are then handed out, oldest first.
    pub fn read_serial(&mut self, n_bytes: usize) -> (r: Result<Vec<u8>, DecodeError>)
        ensures
            r matches Ok(v) ==> v@.len() <= n_bytes,
            old(self).spec_read_buffer().len() >= n_bytes ==> (r matches Ok(v) && v@ == old(
                self,
            ).spec_read_buffer().subrange(0, n_bytes as int) && final(self).spec_read_buffer()
                == old(self).spec_read_buffer().subrange(
                n_bytes as int,
                old(self).spec_read_buffer().len() as int,
            )),
    {
        if self.read_buffer.len() < n_bytes {
            let mut data: Vec<u8> = Vec::new();
            data.push(V5ControllerChannel::Download.to_u8());
            data.push(
                if self.user_read_size < 0x40 {
                    self.user_read_size
                } else {
                    0x40
                },
            );
            match self.protocol.send_extended(VexDeviceCommand::SerialReadWrite, data) {
                Ok(n) => n,
                Err(e) => {
                    return Err(e);
                },
            };
            let resp = match self.protocol.receive_extended(
                VexExtPacketChecks { ack: true, crc: true, length: false },
            ) {
                Ok(resp) => resp,
                Err(e) => {
                    return Err(e);
                },
            };
            if resp.0 != VexDeviceCommand::SerialReadWrite {
                return Err(DecodeError::ExpectedCommand(0x27, resp.0.to_u8()));
            }
            if resp.1.len() < 1 {
                return Err(DecodeError::PacketLengthError);
            }
            crate::wire::push_slice(
                &mut self.read_buffer,
                vstd::slice::slice_subrange(resp.1.as_slice(), 1, resp.1.len()),
            );
        }
        let k: usize = if n_bytes <= self.read_buffer.len() {
            n_bytes
        } else {
            self.read_buffer.len()
        };
        let out = vstd::slice::slice_to_vec(
            vstd::slice::slice_subrange(self.read_buffer.as_slice(), 0, k),
        );
        let rest = vstd::slice::slice_to_vec(
            vstd::slice::slice_subrange(self.read_buffer.as_slice(), k, self.read_buffer.len()),
        );
        self.read_buffer = rest;
        Ok(out)
    }

    /// Writes to the user port.  Without a user port, user data cannot be
    /// written over wireless control.
    pub fn write(&mut self, buf: &[u8]) -> (r: Result<usize, DecodeError>)
        ensures
            r matches Ok(n) ==> n == buf@.len(),
    {
        match &mut self.user_port {
            Some(p) => match p.write_all(buf) {
                Ok(u) => {
                    let _ = u;
                    Ok(buf.len())
                },
                Err(e) => Err(e),
            },
            None => Err(DecodeError::DeviceError(DeviceError::NoWriteOnWireless)),
        }
    }

    /// Flushes the user port.  Without a user port there is nothing to
    /// flush and the call fails as writes do.
    pub fn flush(&mut self) -> (r: Result<(), DecodeError>)
    {
        match &mut self.user_port {
            Some(p) => p.flush(),
            None => Err(DecodeError::DeviceError(DeviceError::NoWriteOnWireless)),
        }
    }

    /// Runs one extended exchange: sends the payload under the command and
    /// receives a fully checked response, whose extended command id must
    /// answer the request.
    fn extended_exchange(&mut self, command: VexDeviceCommand, data: Vec<u8>) -> (r: Result<
        Vec<u8>,
        DecodeError,
    >)
        requires
            data@.len() <= MAX_EXT_PAYLOAD,
        ensures
            r matches Ok(p) ==> final(self).spec_written() == old(self).spec_written()
                + spec_ext_packet(command.spec_u8(), data@),
            final(self).spec_read_buffer() == old(self).spec_read_buffer(),
            final(self).spec_user_read_size() == old(self).spec_user_read_size(),
    {
        match self.protocol.send_extended(command, data) {
            Ok(n) => n,
            Err(e) => {
                return Err(e);
            },
        };
        let resp = match self.protocol.receive_extended(VexExtPacketChecks::all()) {
            Ok(resp) => resp,
            Err(e) => {
                return Err(e);
            },
        };
        if resp.0 != command {
            return Err(DecodeError::ExpectedCommand(command.to_u8(), resp.0.to_u8()));
        }
        Ok(resp.1)
    }

    /// Executes a program file on the brain's flash by name.
    pub fn execute_program_file(
        &mut self,
        file_name: &str,
        vid: Option<VexVID>,
        options: Option<u8>,
    ) -> (r: Result<(), DecodeError>)
        ensures
            !file_name.is_ascii() ==> r == Err::<(), DecodeError>(DecodeError::NotAscii),
            r matches Ok(u) ==> final(self).spec_written() == old(self).spec_written()
                + spec_ext_packet(
                VexDeviceCommand::ExecuteFile.spec_u8(),
                spec_vid_options_name_payload(
                    match vid {
                        Some(v) => v.spec_u8(),
                        None => VexVID::USER.spec_u8(),
                    },
                    match options {
                        Some(o) => o,
                        None => 0u8,
                    },
                    spec_name24(file_name.spec_bytes()),
                ),
            ),
    {
        let vid = match vid {
            Some(v) => v,
            None => VexVID::USER,
        };
        let options = match options {
            Some(o) => o,
            None => 0,
        };
        let name24 = match name_to_bytes(file_name) {
            Ok(v) => v,
            Err(e) => {
                return Err(e);
            },
        };
        let mut payload: Vec<u8> = Vec::new();
        payload.push(vid.to_u8());
        payload.push(options);
        crate::wire::push_slice(&mut payload, name24.as_slice());
        proof {
            assert(payload@ =~= spec_vid_options_name_payload(
                vid.spec_u8(),
                options,
                spec_name24(file_name.spec_bytes()),
            ));
        }
        match self.extended_exchange(VexDeviceCommand::ExecuteFile, payload) {
            Ok(_) => Ok(()),
            Err(e) => Err(e),
        }
    }

    /// Closes the current file transfer, telling the brain what to do
    /// afterwards; by default, nothing.  Returns the trailing response
    /// bytes.
    pub fn file_transfer_close(&mut self, on_exit: Option<VexFiletransferFinished>) -> (r:
        Result<Vec<u8>, DecodeError>)
        ensures
            r matches Ok(p) ==> final(self).spec_written() == old(self).spec_written()
                + spec_ext_packet(
                VexDeviceCommand::ExitFile.spec_u8(),
                seq![
                    match on_exit {
                        Some(f) => f.spec_u8(),
                        None => 0u8,
                    },
                ],
            ),
    {
        let on_exit = match on_exit {
            Some(f) => f,
            None => VexFiletransferFinished::DoNothing,
        };
        let mut payload: Vec<u8> = Vec::new();
        payload.push(on_exit.to_u8());
        assert(payload@ =~= seq![on_exit.spec_u8()]);
        self.extended_exchange(VexDeviceCommand::ExitFile, payload)
    }

    /// Requests the metadata of a file by its index.
    pub fn file_metadata_from_index(&mut self, index: u8, options: Option<u8>) -> (r: Result<
        VexFileMetadataByIndex,
        DecodeError,
    >)
        ensures
            r matches Ok(v) ==> final(self).spec_written() == old(self).spec_written()
                + spec_ext_packet(
                VexDeviceCommand::GetMetadataByFileIndex.spec_u8(),
                seq![
                    index,
                    match options {
                        Some(o) => o,
                        None => 0u8,
                    },
                ],
            ),
    {
        let opts: u8 = match options {
            Some(o) => o,
            None => 0,
        };
        let mut payload: Vec<u8> = Vec::new();
        payload.push(index);
        payload.push(opts);
        proof {
            assert(payload@ =~= seq![
                index,
                (match options {
                    Some(o) => o,
                    None => 0u8,
                }),
            ]);
        }
        let resp = match self.extended_exchange(
            VexDeviceCommand::GetMetadataByFileIndex,
            payload,
        ) {
            Ok(p) => p,
            Err(e) => {
                return Err(e);
            },
        };
        parse_metadata_by_index(resp.as_slice())
    }

    /// Requests the metadata of a file by its name.
    pub fn file_metadata_from_name(
        &mut self,
        name: &str,
        vid: Option<VexVID>,
        options: Option<u8>,
    ) -> (r: Result<VexFileMetadataByName, DecodeError>)
        ensures
            !name.is_ascii() ==> r == Err::<VexFileMetadataByName, DecodeError>(
                DecodeError::NotAscii,
            ),
            r matches Ok(v) ==> final(self).spec_written() == old(self).spec_written()
                + spec_ext_packet(
                VexDeviceCommand::GetMetadataByFilename.spec_u8(),
                spec_vid_options_name_payload(
                    match vid {
                        Some(v) => v.spec_u8(),
                        None => VexVID::USER.spec_u8(),
                    },
                    match options {
                        Some(o) => o,
                        None => 0u8,
                    },
                    spec_name24(name.spec_bytes()),
                ),
            ),
    {
        let vid = match vid {
            Some(v) => v,
            None => VexVID::USER,
        };
        let options = match options {
            Some(o) => o,
            None => 0,
        };
        let name24 = match name_to_bytes(name) {
            Ok(v) => v,
            Err(e) => {
                return Err(e);
            },
        };
        let mut payload: Vec<u8> = Vec::new();
        payload.push(vid.to_u8());
        payload.push(options);
        crate::wire::push_slice(&mut payload, name24.as_slice());
        proof {
            assert(payload@ =~= spec_vid_options_name_payload(
                vid.spec_u8(),
                options,
                spec_name24(name.spec_bytes()),
            ));
        }
        let resp = match self.extended_exchange(
            VexDeviceCommand::GetMetadataByFilename,
            payload,
        ) {
            Ok(p) => p,
            Err(e) => {
                return Err(e);
            },
        };
        parse_metadata_by_name(resp.as_slice())
    }

    /// Sets the metadata of a program file by name.
    pub fn set_program_file_metadata(
        &mut self,
        name: &str,
        metadata: VexFileMetadataSet,
    ) -> (r: Result<(), DecodeError>)
        ensures
            !name.is_ascii() ==> r == Err::<(), DecodeError>(DecodeError::NotAscii),
            r matches Ok(u) ==> final(self).spec_written() == old(self).spec_written()
                + spec_ext_packet(
                VexDeviceCommand::SetFileMetadata.spec_u8(),
                spec_set_metadata_payload(metadata, spec_name24(name.spec_bytes())),
            ),
    {
        let name24 = match name_to_bytes(name) {
            Ok(v) => v,
            Err(e) => {
                return Err(e);
            },
        };
        proof {
            vstd::bytes::lemma_auto_spec_u32_to_from_le_bytes();
        }
        let mut payload: Vec<u8> = Vec::new();
        payload.push(metadata.vid);
        payload.push(metadata.options);
        let mut word = u32_to_le_bytes(metadata.addr);
        payload.append(&mut word);
        crate::wire::push_slice(&mut payload, metadata.file_type.as_slice());
        let mut word = u32_to_le_bytes(metadata.timestamp);
        payload.append(&mut word);
        let mut word = u32_to_le_bytes(metadata.version);
        payload.append(&mut word);
        crate::wire::push_slice(&mut payload, name24.as_slice());
        proof {
            assert(payload@ =~= spec_set_metadata_payload(
                metadata,
                spec_name24(name.spec_bytes()),
            ));
        }
        match self.extended_exchange(VexDeviceCommand::SetFileMetadata, payload) {
            Ok(_) => Ok(()),
            Err(e) => Err(e),
        }
    }

    /// Requests how many directories the brain holds.
    pub fn get_directory_count(&mut self, vid: Option<VexVID>, options: Option<u8>) -> (r:
        Result<i16, DecodeError>)
        ensures
            r matches Ok(v) ==> final(self).spec_written() == old(self).spec_written()
                + spec_ext_packet(
                VexDeviceCommand::GetDirectoryCount.spec_u8(),
                seq![
                    match vid {
                        Some(v) => v.spec_u8(),
                        None => VexVID::USER.spec_u8(),
                    },
                    match options {
                        Some(o) => o,
                        None => 0u8,
                    },
                ],
            ),
    {
        let vid_val: VexVID = match vid {
            Some(v) => v,
            None => VexVID::USER,
        };
        let opts: u8 = match options {
            Some(o) => o,
            None => 0,
        };
        let mut payload: Vec<u8> = Vec::new();
        payload.push(vid_val.to_u8());
        payload.push(opts);
        proof {
            assert(payload@ =~= seq![
                (match vid {
                    Some(v) => v.spec_u8(),
                    None => VexVID::USER.spec_u8(),
                }),
                (match options {
                    Some(o) => o,
                    None => 0u8,
                }),
            ]);
        }
        let resp = match self.extended_exchange(VexDeviceCommand::GetDirectoryCount, payload) {
            Ok(p) => p,
            Err(e) => {
                return Err(e);
            },
        };
        parse_directory_count(resp.as_slice())
    }

    /// Erases a file from the brain's flash.  With `erase_all` (the
    /// default) every file matching the base name goes.  The device starts
    /// an implicit file transfer while deleting, so the transfer is closed
    /// right after — a documented quirk of the firmware.
    pub fn delete_file(&mut self, name: &str, vid: Option<VexVID>, erase_all: Option<bool>) -> (
    r: Result<(), DecodeError>)
        ensures
            !name.is_ascii() ==> r == Err::<(), DecodeError>(DecodeError::NotAscii),
            r matches Ok(u) ==> final(self).spec_written() == old(self).spec_written()
                + spec_ext_packet(
                VexDeviceCommand::DeleteFile.spec_u8(),
                spec_vid_options_name_payload(
                    match vid {
                        Some(v) => v.spec_u8(),
                        None => VexVID::USER.spec_u8(),
                    },
                    if match erase_all {
                        Some(b) => b,
                        None => true,
                    } {
                        0x80u8
                    } else {
                        0u8
                    },
                    spec_name24(name.spec_bytes()),
                ),
            ) + spec_ext_packet(VexDeviceCommand::ExitFile.spec_u8(), seq![0u8]),
    {
        let vid = match vid {
            Some(v) => v,
            None => VexVID::USER,
        };
        let erase_all = match erase_all {
            Some(b) => b,
            None => true,
        };
        let options: u8 = if erase_all {
            0x80
        } else {
            0x00
        };
        let name24 = match name_to_bytes(name) {
            Ok(v) => v,
            Err(e) => {
                return Err(e);
            },
        };
        let mut payload: Vec<u8> = Vec::new();
        payload.push(vid.to_u8());
        payload.push(options);
        crate::wire::push_slice(&mut payload, name24.as_slice());
        proof {
            assert(payload@ =~= spec_vid_options_name_payload(
                vid.spec_u8(),
                options,
                spec_name24(name.spec_bytes()),
            ));
        }
        match self.extended_exchange(VexDeviceCommand::DeleteFile, payload) {
            Ok(p) => p,
            Err(e) => {
                return Err(e);
            },
        };
        match self.file_transfer_close(None) {
            Ok(_) => Ok(()),
            Err(e) => Err(e),
        }
    }
}

} // verus!
