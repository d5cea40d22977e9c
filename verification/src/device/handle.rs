//! The handle to an open file transfer and its chunked read/write session.
//!
//! A handle is created by [`super::Device::open`] and borrows the device
//! for each operation.  Reads and writes move the file in chunks: writes
//! step at three quarters of the negotiated maximum packet size, leaving
//! headroom for the envelope; reads step at a fixed 512 bytes.  Chunk
//! lengths on the wire are always multiples of four.  The transfer must be
//! closed exactly once, on every exit path; the device holds a single
//! transfer slot.

use vstd::bytes::{spec_u16_to_le_bytes, spec_u32_to_le_bytes, u16_to_le_bytes, u32_to_le_bytes};
use vstd::prelude::*;
use vstd::string::StringSliceAdditionalSpecFns;

use crate::checks::VexExtPacketChecks;
use crate::commands::file::{spec_pad4, spec_write_payload};
use crate::errors::DecodeError;
use crate::io::ByteStream;
use crate::protocol::VexDeviceCommand;
use crate::wire::spec_ext_packet;

use super::file::{VexFiletransferFinished, VexFiletransferMetadata, VexInitialFileMetadata};
use super::{
    file_mode_bytes, name_to_bytes, spec_link_payload, spec_name24, spec_open_payload, Device,
};

verus! {

/// The read step of [`V5FileHandle::read_all`], in bytes.
pub const READ_ALL_STEP: u16 = 512;

/// A handle to an open file transfer on the device.
#[derive(Debug)]
pub struct V5FileHandle {
    /// The metadata the open exchange negotiated.
    pub transfer_metadata: VexFiletransferMetadata,
    /// The metadata the transfer was opened with.
    pub metadata: VexInitialFileMetadata,
    /// The file name on the wire, 24 NUL-padded bytes.
    pub file_name: Vec<u8>,
    /// Whether the transfer has been closed.
    pub closed: bool,
}

/// A byte sequence split into chunks of `step` bytes, the final chunk
/// holding whatever remains.
pub open spec fn spec_chunks(data: Seq<u8>, step: int) -> Seq<Seq<u8>>
    decreases data.len(),
{
    if data.len() <= 0 {
        Seq::empty()
    } else if step < 1 || data.len() <= step {
        seq![data]
    } else {
        seq![data.take(step)] + spec_chunks(data.skip(step), step)
    }
}

/// Chunking loses, duplicates and reorders nothing: concatenating the
/// chunks a buffer is split into, in order, reproduces the buffer exactly.
/// This is the heart of the write-then-read round trip: the write loop
/// sends exactly the chunks of its input, and the read loop concatenates
/// the chunks it receives, so a transfer reproduces the original bytes.
pub proof fn lemma_chunks_flatten(data: Seq<u8>, step: int)
    ensures
        spec_chunks(data, step).flatten() == data,
    decreases data.len(),
{
    if data.len() <= 0 {
        assert(spec_chunks(data, step).flatten() =~= data);
    } else if step < 1 || data.len() <= step {
        let c = spec_chunks(data, step);
        assert(c == seq![data]);
        assert(c.first() == data);
        assert(c.drop_first() =~= Seq::<Seq<u8>>::empty());
        assert(c.drop_first().flatten() =~= Seq::<u8>::empty());
        assert(c.flatten() =~= data);
    } else {
        let c = spec_chunks(data, step);
        let rest = spec_chunks(data.skip(step), step);
        lemma_chunks_flatten(data.skip(step), step);
        assert(c.first() == data.take(step));
        assert(c.drop_first() =~= rest);
        assert(c.flatten() == data.take(step) + rest.flatten());
        assert(data.take(step) + data.skip(step) =~= data);
    }
}

/// Every chunk a buffer is split into is at most `step` long, and all but
/// the last are exactly `step` long.
pub proof fn lemma_chunks_sizes(data: Seq<u8>, step: int)
    requires
        step >= 1,
    ensures
        forall|k: int|
            0 <= k < spec_chunks(data, step).len() ==> #[trigger] spec_chunks(data, step)[k].len()
                <= step,
        forall|k: int|
            0 <= k < spec_chunks(data, step).len() - 1 ==> #[trigger] spec_chunks(
                data,
                step,
            )[k].len() == step,
    decreases data.len(),
{
    if data.len() <= 0 {
    } else if data.len() <= step {
    } else {
        lemma_chunks_sizes(data.skip(step), step);
        let c = spec_chunks(data, step);
        let rest = spec_chunks(data.skip(step), step);
        assert forall|k: int| 0 <= k < c.len() implies #[trigger] c[k].len() <= step by {
            if k > 0 {
                assert(c[k] == rest[k - 1]);
            }
        }
        assert forall|k: int| 0 <= k < c.len() - 1 implies #[trigger] c[k].len() == step by {
            if k > 0 {
                assert(c[k] == rest[k - 1]);
            }
        }
    }
}

/// The wire bytes of the run of read requests that fetches `remaining`
/// bytes from `addr`: one request per 512-byte step, each asking for the
/// remaining count of its step rounded up to a multiple of four.
pub open spec fn spec_read_stream(addr: int, remaining: int) -> Seq<u8>
    recommends
        0 <= addr,
        addr + remaining <= u32::MAX,
    decreases remaining,
{
    if remaining <= 0 {
        Seq::empty()
    } else {
        let step: int = if remaining < READ_ALL_STEP as int {
            remaining
        } else {
            READ_ALL_STEP as int
        };
        spec_ext_packet(
            VexDeviceCommand::ReadFile.spec_u8(),
            spec_u32_to_le_bytes(addr as u32) + spec_u16_to_le_bytes(spec_pad4(step) as u16),
        ) + spec_read_stream(addr + step, remaining - step)
    }
}

/// The wire bytes of a run of file-write packets: one extended write
/// packet per chunk, at consecutive addresses starting at `addr`.
pub open spec fn spec_write_stream(addr: int, chunks: Seq<Seq<u8>>) -> Seq<u8>
    decreases chunks.len(),
{
    if chunks.len() == 0 {
        Seq::empty()
    } else {
        spec_ext_packet(
            VexDeviceCommand::WriteFile.spec_u8(),
            spec_write_payload(addr as u32, chunks[0]),
        ) + spec_write_stream(addr + chunks[0].len(), chunks.skip(1))
    }
}

/// Appending a chunk to a run of write packets appends one write packet,
/// addressed just past the bytes already covered.
pub proof fn lemma_write_stream_push(addr: int, chunks: Seq<Seq<u8>>, c: Seq<u8>)
    ensures
        spec_write_stream(addr, chunks.push(c)) == spec_write_stream(addr, chunks)
            + spec_ext_packet(
            VexDeviceCommand::WriteFile.spec_u8(),
            spec_write_payload((addr + chunks.flatten().len()) as u32, c),
        ),
    decreases chunks.len(),
{
    broadcast use vstd::seq::Seq::lemma_flatten_push;

    if chunks.len() == 0 {
        assert(chunks.push(c)[0] == c);
        assert(chunks.push(c).skip(1) =~= Seq::<Seq<u8>>::empty());
        assert(chunks.flatten().len() == 0) by {
            assert(chunks.flatten() =~= Seq::<u8>::empty());
        }
        assert(spec_write_stream(addr + c.len(), Seq::<Seq<u8>>::empty())
            == Seq::<u8>::empty());
        assert(spec_write_stream(addr, chunks.push(c)) =~= spec_ext_packet(
            VexDeviceCommand::WriteFile.spec_u8(),
            spec_write_payload(addr as u32, c),
        ));
    } else {
        let h = chunks[0];
        let t = chunks.skip(1);
        lemma_write_stream_push(addr + h.len(), t, c);
        assert(chunks.push(c)[0] == h);
        assert(chunks.push(c).skip(1) =~= t.push(c));
        assert(chunks.flatten() == h + t.flatten()) by {
            assert(chunks.drop_first() =~= t);
            assert(chunks.first() == h);
        }
        assert(addr + h.len() + t.flatten().len() == addr + chunks.flatten().len());
    }
}

impl<S: ByteStream, U: ByteStream> Device<S, U> {
    /// Opens a handle to a file on the brain.
    ///
    /// The open request carries the transfer metadata (the default uploads
    /// a binary to flash, overwriting) and the 24-byte NUL-padded name,
    /// which must be ASCII.  The response carries the negotiated transfer
    /// metadata.  For uploads the linked file name is set to the same name
    /// right after, as the firmware expects.
    pub fn open(&mut self, file_name: &str, file_metadata: Option<VexInitialFileMetadata>) -> (r:
        Result<V5FileHandle, DecodeError>)
        ensures
            !file_name.is_ascii() ==> r == Err::<V5FileHandle, DecodeError>(
                DecodeError::NotAscii,
            ),
            r matches Ok(h) ==> ({
                let m = match file_metadata {
                    Some(m) => m,
                    None => VexInitialFileMetadata {
                        function: super::file::VexFileMode::Upload(
                            super::file::VexFileTarget::FLASH,
                            true,
                        ),
                        vid: super::file::VexVID::USER,
                        options: 0,
                        length: 0,
                        addr: 0x3800000,
                        crc: 0,
                        file_type: [0x62u8, 0x69u8, 0x6Eu8, 0u8],
                        timestamp: 0,
                        version: 0,
                    },
                };
                let name24 = spec_name24(file_name.spec_bytes());
                &&& h.closed == false
                &&& h.file_name@ == name24
                &&& h.metadata == m
                &&& (match m.function {
                    super::file::VexFileMode::Upload(_, _) => final(self).spec_written() == old(
                        self,
                    ).spec_written() + spec_ext_packet(
                        VexDeviceCommand::OpenFile.spec_u8(),
                        spec_open_payload(m, name24),
                    ) + spec_ext_packet(
                        VexDeviceCommand::SetLinkedFilename.spec_u8(),
                        spec_link_payload(m, name24),
                    ),
                    super::file::VexFileMode::Download(_, _) => final(self).spec_written()
                        == old(self).spec_written() + spec_ext_packet(
                        VexDeviceCommand::OpenFile.spec_u8(),
                        spec_open_payload(m, name24),
                    ),
                })
            }),
    {
        let name24 = match name_to_bytes(file_name) {
            Ok(v) => v,
            Err(e) => {
                return Err(e);
            },
        };
        let m = match file_metadata {
            Some(m) => m,
            None => VexInitialFileMetadata::default(),
        };
        let ft = file_mode_bytes(m.function);
        proof {
            vstd::bytes::lemma_auto_spec_u32_to_from_le_bytes();
        }
        let mut payload: Vec<u8> = Vec::new();
        payload.push(ft.0);
        payload.push(ft.1);
        payload.push(m.vid.to_u8());
        payload.push(m.options | ft.2);
        let mut word = u32_to_le_bytes(m.length);
        payload.append(&mut word);
        let mut word = u32_to_le_bytes(m.addr);
        payload.append(&mut word);
        let mut word = u32_to_le_bytes(m.crc);
        payload.append(&mut word);
        crate::wire::push_slice(&mut payload, m.file_type.as_slice());
        let mut word = u32_to_le_bytes(m.timestamp);
        payload.append(&mut word);
        let mut word = u32_to_le_bytes(m.version);
        payload.append(&mut word);
        crate::wire::push_slice(&mut payload, name24.as_slice());
        proof {
            assert(payload@ =~= spec_open_payload(m, spec_name24(file_name.spec_bytes())));
        }
        let resp = match self.extended_exchange(VexDeviceCommand::OpenFile, payload) {
            Ok(p) => p,
            Err(e) => {
                return Err(e);
            },
        };
        if resp.len() < 10 {
            return Err(DecodeError::PacketLengthError);
        }
        let transfer_metadata = VexFiletransferMetadata {
            max_packet_size: vstd::bytes::u16_from_le_bytes(
                vstd::slice::slice_subrange(resp.as_slice(), 0, 2),
            ),
            file_size: vstd::bytes::u32_from_le_bytes(
                vstd::slice::slice_subrange(resp.as_slice(), 2, 6),
            ),
            crc: vstd::bytes::u32_from_le_bytes(
                vstd::slice::slice_subrange(resp.as_slice(), 6, 10),
            ),
        };
        let is_upload = match m.function {
            super::file::VexFileMode::Upload(_, _) => true,
            super::file::VexFileMode::Download(_, _) => false,
        };
        if is_upload {
            let mut link: Vec<u8> = Vec::new();
            link.push(m.vid.to_u8());
            link.push(m.options | ft.2);
            crate::wire::push_slice(&mut link, name24.as_slice());
            proof {
                assert(link@ =~= spec_link_payload(m, spec_name24(file_name.spec_bytes())));
            }
            match self.extended_exchange(VexDeviceCommand::SetLinkedFilename, link) {
                Ok(p) => p,
                Err(e) => {
                    return Err(e);
                },
            };
        }
        Ok(V5FileHandle { transfer_metadata, metadata: m, file_name: name24, closed: false })
    }
}

impl V5FileHandle {
    /// Closes the file transfer, telling the brain what to do afterwards.
    /// Returns the trailing response bytes.  Must be called exactly once,
    /// on every exit path: the device has a single transfer slot, and the
    /// handle does not close itself.
    pub fn close<S: ByteStream, U: ByteStream>(
        &mut self,
        device: &mut Device<S, U>,
        on_exit: VexFiletransferFinished,
    ) -> (r: Result<Vec<u8>, DecodeError>)
        ensures
            r matches Ok(b) ==> final(self).closed == true && final(device).spec_written()
                == old(device).spec_written() + spec_ext_packet(
                VexDeviceCommand::ExitFile.spec_u8(),
                seq![on_exit.spec_u8()],
            ),
            final(self).transfer_metadata == old(self).transfer_metadata,
            final(self).metadata == old(self).metadata,
            final(self).file_name == old(self).file_name,
    {
        let resp = match device.file_transfer_close(Some(on_exit)) {
            Ok(b) => b,
            Err(e) => {
                return Err(e);
            },
        };
        self.closed = true;
        Ok(resp)
    }

    /// Reads `n_bytes` bytes of the file at `offset`.
    ///
    /// The byte count sent on the wire is rounded up to a multiple of
    /// four, and the response is checked for its CRC but not its ACK, as
    /// raw file data is the payload.  The response carries a four-byte
    /// leading address echo, which is stripped; exactly `n_bytes` bytes
    /// come back.
    pub fn read_len<S: ByteStream, U: ByteStream>(
        &self,
        device: &mut Device<S, U>,
        offset: u32,
        n_bytes: u16,
    ) -> (r: Result<Vec<u8>, DecodeError>)
        requires
            n_bytes <= 0xFFFC,
        ensures
            r matches Ok(d) ==> d@.len() == n_bytes && final(device).spec_written() == old(
                device,
            ).spec_written() + spec_ext_packet(
                VexDeviceCommand::ReadFile.spec_u8(),
                spec_u32_to_le_bytes(offset) + spec_u16_to_le_bytes(
                    spec_pad4(n_bytes as int) as u16,
                ),
            ),
    {
        let n_pad: u16 = if n_bytes % 4 == 0 {
            n_bytes
        } else {
            n_bytes + 4 - n_bytes % 4
        };
        proof {
            vstd::bytes::lemma_auto_spec_u32_to_from_le_bytes();
            vstd::bytes::lemma_auto_spec_u16_to_from_le_bytes();
        }
        let mut payload = u32_to_le_bytes(offset);
        let mut count = u16_to_le_bytes(n_pad);
        payload.append(&mut count);
        proof {
            assert(payload@ =~= spec_u32_to_le_bytes(offset) + spec_u16_to_le_bytes(
                spec_pad4(n_bytes as int) as u16,
            ));
        }
        match device.protocol.send_extended(VexDeviceCommand::ReadFile, payload) {
            Ok(n) => n,
            Err(e) => {
                return Err(e);
            },
        };
        let resp = match device.protocol.receive_extended(
            VexExtPacketChecks { ack: false, crc: true, length: false },
        ) {
            Ok(resp) => resp,
            Err(e) => {
                return Err(e);
            },
        };
        if resp.0 != VexDeviceCommand::ReadFile {
            return Err(DecodeError::ExpectedCommand(0x14, resp.0.to_u8()));
        }
        if resp.1.len() < 4 + n_bytes as usize {
            return Err(DecodeError::PacketLengthError);
        }
        let data = vstd::slice::slice_to_vec(
            vstd::slice::slice_subrange(resp.1.as_slice(), 4, 4 + n_bytes as usize),
        );
        Ok(data)
    }

    /// Reads the entire file: chunks of 512 bytes from the transfer
    /// address, the final chunk truncated so exactly `file_size` bytes
    /// come back.  On success the bytes handed to the stream are exactly
    /// the run of read requests covering the file from the transfer
    /// address.
    pub fn read_all<S: ByteStream, U: ByteStream>(&self, device: &mut Device<S, U>) -> (r:
        Result<Vec<u8>, DecodeError>)
        requires
            self.metadata.addr + self.transfer_metadata.file_size <= u32::MAX,
        ensures
            r matches Ok(d) ==> d@.len() == self.transfer_metadata.file_size
                && final(device).spec_written() == old(device).spec_written()
                + spec_read_stream(
                self.metadata.addr as int,
                self.transfer_metadata.file_size as int,
            ),
    {
        let length: u32 = self.transfer_metadata.file_size;
        let mut data: Vec<u8> = Vec::new();
        let mut i: u64 = 0;
        while i < length as u64
            invariant
                self.metadata.addr + length <= u32::MAX,
                i <= length as u64,
                i < length as u64 ==> data@.len() == i,
                i >= length as u64 ==> data@.len() >= length,
                old(device).spec_written() + spec_read_stream(
                    self.metadata.addr as int,
                    length as int,
                ) == device.spec_written() + spec_read_stream(
                    self.metadata.addr + i,
                    length - i,
                ),
            decreases length as u64 - i,
        {
            let packet_size: u16 = if i + (READ_ALL_STEP as u64) > (length as u64) {
                (length as u64 - i) as u16
            } else {
                READ_ALL_STEP
            };
            let n_pad: u16 = if packet_size % 4 == 0 {
                packet_size
            } else {
                packet_size + 4 - packet_size % 4
            };
            let ghost written_before: Seq<u8> = device.spec_written();
            let chunk = match self.read_len(
                device,
                self.metadata.addr + (i as u32),
                n_pad,
            ) {
                Ok(c) => c,
                Err(e) => {
                    return Err(e);
                },
            };
            proof {
                let rem: int = length - i;
                let step: int = if rem < READ_ALL_STEP as int {
                    rem
                } else {
                    READ_ALL_STEP as int
                };
                assert(packet_size as int == step);
                assert(spec_pad4(n_pad as int) == n_pad as int);
                assert(spec_read_stream(self.metadata.addr + i, rem) =~= spec_ext_packet(
                    VexDeviceCommand::ReadFile.spec_u8(),
                    spec_u32_to_le_bytes((self.metadata.addr + i) as u32)
                        + spec_u16_to_le_bytes(n_pad),
                ) + spec_read_stream(self.metadata.addr + i + step, rem - step));
            }
            crate::wire::push_slice(&mut data, chunk.as_slice());
            i = if i + (READ_ALL_STEP as u64) > (length as u64) {
                length as u64
            } else {
                i + (READ_ALL_STEP as u64)
            };
        }
        data.truncate(length as usize);
        proof {
            assert(data@.len() == length);
            assert(spec_read_stream(self.metadata.addr + i, length - i) =~= Seq::<u8>::empty());
        }
        Ok(data)
    }

    /// Writes a chunk of data at `offset`.  The payload on the wire is
    /// the address followed by the data zero-padded to a multiple of
    /// four.
    pub fn write_some<S: ByteStream, U: ByteStream>(
        &self,
        device: &mut Device<S, U>,
        offset: u32,
        data: Vec<u8>,
    ) -> (r: Result<(), DecodeError>)
        requires
            data@.len() <= 0x7FF4,
        ensures
            r matches Ok(u) ==> final(device).spec_written() == old(device).spec_written()
                + spec_ext_packet(
                VexDeviceCommand::WriteFile.spec_u8(),
                spec_write_payload(offset, data@),
            ),
    {
        proof {
            vstd::bytes::lemma_auto_spec_u32_to_from_le_bytes();
        }
        let mut payload = u32_to_le_bytes(offset);
        crate::wire::push_slice(&mut payload, data.as_slice());
        let target: usize = if data.len() % 4 == 0 {
            data.len()
        } else {
            data.len() + 4 - data.len() % 4
        };
        while payload.len() < 4 + target
            invariant
                payload@.len() <= 4 + target,
                payload@ == spec_u32_to_le_bytes(offset) + data@ + Seq::new(
                    (payload@.len() - 4 - data@.len()) as nat,
                    |k: int| 0u8,
                ),
                target == spec_pad4(data@.len() as int),
                4 + target <= 0x7FFC,
            decreases 4 + target - payload@.len(),
        {
            payload.push(0);
            proof {
                vstd::bytes::lemma_auto_spec_u32_to_from_le_bytes();
                assert(payload@ =~= spec_u32_to_le_bytes(offset) + data@ + Seq::new(
                    (payload@.len() - 4 - data@.len()) as nat,
                    |k: int| 0u8,
                ));
            }
        }
        proof {
            assert(payload@ =~= spec_write_payload(offset, data@));
        }
        match device.extended_exchange(VexDeviceCommand::WriteFile, payload) {
            Ok(_) => Ok(()),
            Err(e) => Err(e),
        }
    }

    /// Writes a buffer to the file, in chunks of three quarters of the
    /// negotiated maximum packet size so the envelope never pushes a
    /// request over it.  At most `file_size` bytes are written; extra
    /// bytes at the end of the buffer are ignored.  Returns how much was
    /// written.
    ///
    /// On success the bytes handed to the stream are exactly a run of
    /// write packets whose data chunks concatenate, in order and at
    /// consecutive addresses from the transfer address, to the written
    /// prefix of the buffer, each chunk within the write step.
    pub fn write_all<S: ByteStream, U: ByteStream>(
        &self,
        device: &mut Device<S, U>,
        data: Vec<u8>,
    ) -> (r: Result<usize, DecodeError>)
        requires
            self.transfer_metadata.max_packet_size >= 2,
            self.transfer_metadata.max_packet_size / 2 + self.transfer_metadata.max_packet_size
                / 4 <= 0x7FF4,
            self.metadata.addr + self.transfer_metadata.file_size <= u32::MAX,
        ensures
            r matches Ok(n) ==> n == if data@.len() <= self.transfer_metadata.file_size {
                data@.len() as int
            } else {
                self.transfer_metadata.file_size as int
            },
            r matches Ok(n) ==> exists|chunks: Seq<Seq<u8>>|
                #![auto]
                final(device).spec_written() == old(device).spec_written() + spec_write_stream(
                    self.metadata.addr as int,
                    chunks,
                ) && chunks.flatten() == data@.take(n as int) && (forall|k: int|
                    0 <= k < chunks.len() ==> #[trigger] chunks[k].len()
                        <= self.transfer_metadata.max_packet_size / 2
                        + self.transfer_metadata.max_packet_size / 4),
    {
        let max_size: u16 = self.transfer_metadata.max_packet_size / 2
            + self.transfer_metadata.max_packet_size / 4;
        let size: u32 = if (data.len() as u64) > (self.transfer_metadata.file_size as u64) {
            self.transfer_metadata.file_size
        } else {
            data.len() as u32
        };
        let mut how_much: usize = 0;
        let mut i: u64 = 0;
        let ghost mut sent: Seq<Seq<u8>> = Seq::empty();
        proof {
            assert(sent.flatten() =~= data@.take(0));
        }
        while i < size as u64
            invariant
                max_size >= 1,
                max_size <= 0x7FF4,
                self.metadata.addr + size <= u32::MAX,
                size <= data@.len(),
                i <= size as u64,
                i < size as u64 ==> how_much == i,
                i >= size as u64 ==> how_much == size,
                device.spec_written() == old(device).spec_written() + spec_write_stream(
                    self.metadata.addr as int,
                    sent,
                ),
                sent.flatten() == data@.take(how_much as int),
                forall|k: int| 0 <= k < sent.len() ==> #[trigger] sent[k].len() <= max_size,
            decreases size as u64 - i,
        {
            let packet_size: u16 = if i + (max_size as u64) > (size as u64) {
                (size as u64 - i) as u16
            } else {
                max_size
            };
            let chunk = vstd::slice::slice_to_vec(
                vstd::slice::slice_subrange(
                    data.as_slice(),
                    i as usize,
                    i as usize + packet_size as usize,
                ),
            );
            let ghost chunk_bytes: Seq<u8> = chunk@;
            match self.write_some(device, self.metadata.addr + (i as u32), chunk) {
                Ok(u) => u,
                Err(e) => {
                    return Err(e);
                },
            };
            proof {
                broadcast use vstd::seq::Seq::lemma_flatten_push;

                assert(sent.flatten().len() == how_much);
                lemma_write_stream_push(self.metadata.addr as int, sent, chunk_bytes);
                sent = sent.push(chunk_bytes);
                assert(sent.flatten() =~= data@.take(how_much + packet_size as int));
                assert(device.spec_written() =~= old(device).spec_written()
                    + spec_write_stream(self.metadata.addr as int, sent));
            }
            how_much = how_much + packet_size as usize;
            i = if i + (max_size as u64) > (size as u64) {
                size as u64
            } else {
                i + (max_size as u64)
            };
        }
        Ok(how_much)
    }
}

} // verus!
