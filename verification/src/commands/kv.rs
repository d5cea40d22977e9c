//! Reading and writing the brain's key-value store.

use vstd::prelude::*;
use vstd::string::StringSliceAdditionalSpecFns;
use vstd::string::StrSliceExecFns;
use vstd::utf8::{encode_utf8, valid_utf8};

use crate::errors::DecodeError;
use crate::wire::{spec_ext_packet, EXTENDED_COMMAND, MAX_EXT_PAYLOAD};

use super::extended::{encode_extended_packet, spec_decode_extended, Extended};
use super::Command;

verus! {

/// The extended command id that reads a key-value entry.
pub const KV_READ_COMMAND: u8 = 0x2E;

/// The extended command id that writes a key-value entry.
pub const KV_WRITE_COMMAND: u8 = 0x2F;

/// Reads a key-value entry from the brain.  The field is the key to read;
/// the useful keys are `teamnumber` and `robotname`.
#[derive(Copy, Clone)]
pub struct KVRead<'a>(pub &'a str);

/// Writes a key-value entry to the brain: the key, then the value.  Values
/// are truncated to a per-key cap before sending.
#[derive(Copy, Clone)]
pub struct KVWrite<'a>(pub &'a str, pub &'a str);

/// How many value bytes a key admits: `teamnumber` caps at 7, `robotname`
/// at 16, and any other key at 254.
pub open spec fn spec_kv_value_cap(key: Seq<u8>) -> int {
    if key == "teamnumber".spec_bytes() {
        7
    } else if key == "robotname".spec_bytes() {
        16
    } else {
        254
    }
}

/// The request payload of a key-value read: the key bytes, NUL-terminated.
pub open spec fn spec_kv_read_payload(key: Seq<u8>) -> Seq<u8> {
    key + seq![0u8]
}

/// The request payload of a key-value write: the NUL-terminated key, then
/// the value truncated to the key's cap, NUL-terminated.
pub open spec fn spec_kv_write_payload(key: Seq<u8>, value: Seq<u8>) -> Seq<u8> {
    let n = if value.len() <= spec_kv_value_cap(key) {
        value.len() as int
    } else {
        spec_kv_value_cap(key)
    };
    key + seq![0u8] + value.subrange(0, n) + seq![0u8]
}

/// What a key-value read response decodes to: the value bytes with the
/// trailing NUL stripped.  A response without a trailing NUL is malformed.
pub open spec fn spec_kv_read_response(command_id: u8, data: Seq<u8>) -> Result<
    Seq<u8>,
    DecodeError,
> {
    match spec_decode_extended(command_id, data, true) {
        Err(e) => Err(e),
        Ok((cmd, payload)) => if cmd != KV_READ_COMMAND {
            Err(DecodeError::ExpectedCommand(KV_READ_COMMAND, cmd))
        } else if payload.len() < 1 || payload[payload.len() - 1] != 0 {
            Err(DecodeError::PacketLengthError)
        } else {
            Ok(payload.subrange(0, payload.len() - 1))
        },
    }
}

/// What a key-value write response decodes to: nothing, once the envelope
/// and command id check out.
pub open spec fn spec_kv_write_response(command_id: u8, data: Seq<u8>) -> Result<
    (),
    DecodeError,
> {
    match spec_decode_extended(command_id, data, true) {
        Err(e) => Err(e),
        Ok((cmd, _payload)) => if cmd != KV_WRITE_COMMAND {
            Err(DecodeError::ExpectedCommand(KV_WRITE_COMMAND, cmd))
        } else {
            Ok(())
        },
    }
}

/// Relies on `String::from_utf8`: it succeeds exactly on valid UTF-8 and
/// the returned string's UTF-8 bytes are the input bytes.
#[verifier::external_body]
fn string_from_utf8(v: Vec<u8>) -> (r: Option<String>)
    ensures
        r matches Some(s) ==> valid_utf8(v@) && encode_utf8(s@) == v@,
        r is None ==> !valid_utf8(v@),
{
    String::from_utf8(v).ok()
}

impl<'a> Command for KVRead<'a> {
    type Response = String;

    fn encode_request(self) -> (r: Result<(u8, Vec<u8>), DecodeError>)
        ensures
            self.0.spec_bytes().len() + 1 <= MAX_EXT_PAYLOAD ==> (r matches Ok(p) && p.0
                == EXTENDED_COMMAND && p.1@ == spec_ext_packet(
                KV_READ_COMMAND,
                spec_kv_read_payload(self.0.spec_bytes()),
            )),
            self.0.spec_bytes().len() + 1 > MAX_EXT_PAYLOAD ==> r == Err::<
                (u8, Vec<u8>),
                DecodeError,
            >(DecodeError::PacketLengthError),
    {
        let mut payload = self.0.as_bytes_vec();
        payload.push(0);
        proof {
            assert(payload@ =~= spec_kv_read_payload(self.0.spec_bytes()));
        }
        match encode_extended_packet(KV_READ_COMMAND, payload.as_slice()) {
            Ok(v) => Ok((EXTENDED_COMMAND, v)),
            Err(e) => Err(e),
        }
    }

    /// Decodes the value of the requested key: the response payload minus
    /// its trailing NUL, as a string.
    fn decode_response(command_id: u8, data: Vec<u8>) -> (r: Result<String, DecodeError>)
        ensures
            match r {
                Ok(s) => spec_kv_read_response(command_id, data@) matches Ok(b) && valid_utf8(b)
                    && encode_utf8(s@) == b,
                Err(e) => spec_kv_read_response(command_id, data@) == Err::<Seq<u8>, _>(e) || (
                spec_kv_read_response(command_id, data@) matches Ok(b) && !valid_utf8(b) && e
                    == DecodeError::Utf8Error),
            },
    {
        let resp = match Extended::decode_extended(
            command_id,
            data,
            crate::checks::VexExtPacketChecks::all(),
        ) {
            Ok(resp) => resp,
            Err(e) => {
                return Err(e);
            },
        };
        if resp.0 != KV_READ_COMMAND {
            return Err(DecodeError::ExpectedCommand(KV_READ_COMMAND, resp.0));
        }
        let payload = resp.1;
        if payload.len() < 1 || payload[payload.len() - 1] != 0 {
            return Err(DecodeError::PacketLengthError);
        }
        let value = vstd::slice::slice_to_vec(
            vstd::slice::slice_subrange(payload.as_slice(), 0, payload.len() - 1),
        );
        match string_from_utf8(value) {
            Some(s) => Ok(s),
            None => Err(DecodeError::Utf8Error),
        }
    }
}

impl<'a> Command for KVWrite<'a> {
    type Response = ();

    /// Encodes the write with the value truncated to the key's cap and
    /// NUL-terminated, after the NUL-terminated key.
    fn encode_request(self) -> (r: Result<(u8, Vec<u8>), DecodeError>)
        ensures
            spec_kv_write_payload(self.0.spec_bytes(), self.1.spec_bytes()).len()
                <= MAX_EXT_PAYLOAD ==> (r matches Ok(p) && p.0 == EXTENDED_COMMAND && p.1@
                == spec_ext_packet(
                KV_WRITE_COMMAND,
                spec_kv_write_payload(self.0.spec_bytes(), self.1.spec_bytes()),
            )),
            spec_kv_write_payload(self.0.spec_bytes(), self.1.spec_bytes()).len()
                > MAX_EXT_PAYLOAD ==> r == Err::<(u8, Vec<u8>), DecodeError>(
                DecodeError::PacketLengthError,
            ),
    {
        let key_bytes = self.0.as_bytes();
        let value_bytes = self.1.as_bytes();

        let cap: usize = if crate::wire::bytes_eq(key_bytes, "teamnumber".as_bytes()) {
            7
        } else if crate::wire::bytes_eq(key_bytes, "robotname".as_bytes()) {
            16
        } else {
            254
        };
        let keep: usize = if value_bytes.len() <= cap {
            value_bytes.len()
        } else {
            cap
        };

        let mut payload = vstd::slice::slice_to_vec(key_bytes);
        payload.push(0);
        crate::wire::push_slice(
            &mut payload,
            vstd::slice::slice_subrange(value_bytes, 0, keep),
        );
        payload.push(0);
        proof {
            assert(payload@ =~= spec_kv_write_payload(self.0.spec_bytes(), self.1.spec_bytes()));
        }
        match encode_extended_packet(KV_WRITE_COMMAND, payload.as_slice()) {
            Ok(v) => Ok((EXTENDED_COMMAND, v)),
            Err(e) => Err(e),
        }
    }

    fn decode_response(command_id: u8, data: Vec<u8>) -> (r: Result<(), DecodeError>)
        ensures
            match r {
                Ok(u) => spec_kv_write_response(command_id, data@) == Ok::<(), DecodeError>(u),
                Err(e) => spec_kv_write_response(command_id, data@) == Err::<(), _>(e),
            },
    {
        let resp = match Extended::decode_extended(
            command_id,
            data,
            crate::checks::VexExtPacketChecks::all(),
        ) {
            Ok(resp) => resp,
            Err(e) => {
                return Err(e);
            },
        };
        if resp.0 != KV_WRITE_COMMAND {
            return Err(DecodeError::ExpectedCommand(KV_WRITE_COMMAND, resp.0));
        }
        Ok(())
    }
}

} // verus!
