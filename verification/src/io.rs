//! The duplex byte channel the protocol runs over, and an in-memory
//! implementation of it.
//!
//! A transport performs no framing, buffering or interpretation: it reads
//! exact byte counts, writes whole buffers, and answers whether the deadline
//! for the current response has passed.  Serial ports and sockets implement
//! this outside the library; [`MemoryStream`] implements it here over
//! in-memory bytes, which is what replay and loopback uses run on.

use vstd::prelude::*;

use crate::errors::DecodeError;

verus! {

/// A duplex byte channel.
///
/// Reads are exact: a transport blocks until it can hand over the requested
/// count and errors rather than short-returns, since the framer's CRC and
/// ACK checks depend on whole trailers.
pub trait ByteStream: Sized {
    /// The bytes handed to the stream for sending so far, in order.
    /// Transports that do not keep a model of their writes may leave the
    /// default, which models nothing.
    open spec fn spec_written(&self) -> Seq<u8> {
        Seq::<u8>::empty()
    }

    /// The bytes the stream has delivered to its reader so far, in order.
    /// Transports that do not keep a model of their reads may leave the
    /// default, which models nothing.
    open spec fn spec_taken(&self) -> Seq<u8> {
        Seq::<u8>::empty()
    }

    /// Reads exactly `n` bytes.  An error means the bytes cannot be
    /// delivered, never a short read.  Reading sends nothing, and the
    /// delivered bytes append to the stream's read model, in order.
    fn read_exact(&mut self, n: usize) -> (r: Result<Vec<u8>, DecodeError>)
        ensures
            r matches Ok(v) ==> v@.len() == n && final(self).spec_taken() == old(
                self,
            ).spec_taken() + v@,
            final(self).spec_written() == old(self).spec_written(),
    ;

    /// Writes the whole buffer.  Writing delivers nothing to the reader.
    fn write_all(&mut self, data: &[u8]) -> (r: Result<(), DecodeError>)
        ensures
            r matches Ok(u) ==> final(self).spec_written() == old(self).spec_written() + data@,
            final(self).spec_taken() == old(self).spec_taken(),
    ;

    /// Flushes buffered writes to the device.  Flushing changes what has
    /// been delivered, not what has been written or read.
    fn flush(&mut self) -> (r: Result<(), DecodeError>)
        ensures
            final(self).spec_written() == old(self).spec_written(),
            final(self).spec_taken() == old(self).spec_taken(),
    ;

    /// Starts the countdown for receiving the next response header.
    fn start_response_timeout(&mut self, timeout_ms: u64)
        ensures
            final(self).spec_written() == old(self).spec_written(),
            final(self).spec_taken() == old(self).spec_taken(),
    ;

    /// True when the countdown started by the last
    /// [`start_response_timeout`](Self::start_response_timeout) has run out.
    fn response_deadline_elapsed(&mut self) -> (r: bool)
        ensures
            final(self).spec_written() == old(self).spec_written(),
            final(self).spec_taken() == old(self).spec_taken(),
    ;
}

/// A byte channel over in-memory bytes: reads consume `input` from the
/// front, writes append to `output`.  Once `input` is exhausted the
/// response deadline counts as elapsed, so a replayed exchange that runs
/// dry times out instead of blocking.
pub struct MemoryStream {
    /// The bytes the stream will deliver, in order.
    pub input: Vec<u8>,
    /// How many input bytes were consumed already.
    pub pos: usize,
    /// Every byte written to the stream, in order.
    pub output: Vec<u8>,
}

impl MemoryStream {
    /// A stream that will deliver `input` and has written nothing yet.
    pub fn new(input: Vec<u8>) -> (r: MemoryStream)
        ensures
            r.input == input,
            r.pos == 0,
            r.output@ == Seq::<u8>::empty(),
    {
        MemoryStream { input, pos: 0, output: Vec::new() }
    }
}

impl ByteStream for MemoryStream {
    /// The written bytes are exactly the output buffer.
    open spec fn spec_written(&self) -> Seq<u8> {
        self.output@
    }

    /// The delivered bytes are the consumed prefix of the input.
    open spec fn spec_taken(&self) -> Seq<u8> {
        if self.pos <= self.input@.len() {
            self.input@.take(self.pos as int)
        } else {
            self.input@
        }
    }

    fn read_exact(&mut self, n: usize) -> (r: Result<Vec<u8>, DecodeError>)
        ensures
            old(self).pos + n <= old(self).input@.len() ==> (r matches Ok(v) && v@ == old(
                self,
            ).input@.subrange(old(self).pos as int, old(self).pos + n) && final(self).pos == old(
                self,
            ).pos + n),
            old(self).pos + n > old(self).input@.len() ==> (r == Err::<Vec<u8>, DecodeError>(
                DecodeError::IoError,
            ) && final(self).pos == old(self).pos),
            final(self).input == old(self).input,
            final(self).output == old(self).output,
    {
        if self.pos <= self.input.len() && n <= self.input.len() - self.pos {
            let out = vstd::slice::slice_to_vec(
                vstd::slice::slice_subrange(self.input.as_slice(), self.pos, self.pos + n),
            );
            self.pos = self.pos + n;
            proof {
                assert(self.spec_taken() =~= old(self).spec_taken() + out@);
            }
            Ok(out)
        } else {
            Err(DecodeError::IoError)
        }
    }

    fn write_all(&mut self, data: &[u8]) -> (r: Result<(), DecodeError>)
        ensures
            r == Ok::<(), DecodeError>(()),
            final(self).output@ == old(self).output@ + data@,
            final(self).input == old(self).input,
            final(self).pos == old(self).pos,
    {
        crate::wire::push_slice(&mut self.output, data);
        Ok(())
    }

    fn flush(&mut self) -> (r: Result<(), DecodeError>)
        ensures
            r == Ok::<(), DecodeError>(()),
            *final(self) == *old(self),
    {
        Ok(())
    }

    fn start_response_timeout(&mut self, _timeout_ms: u64)
        ensures
            *final(self) == *old(self),
    {
    }

    fn response_deadline_elapsed(&mut self) -> (r: bool)
        ensures
            *final(self) == *old(self),
            r == (old(self).pos >= old(self).input@.len()),
    {
        self.pos >= self.input.len()
    }
}

} // verus!
