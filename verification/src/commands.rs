//! The commands that can be sent to a V5 device.
//!
//! Every command implements [`Command`]: it encodes a host-to-device request
//! and decodes the matching device-to-host response.  Each concrete command
//! checks on decode that the response carries its own command id, so a
//! desynchronized stream is reported instead of misread.

use vstd::prelude::*;

pub mod extended;
pub mod file;
pub mod kv;
pub mod remote;
pub mod simple;
pub mod system;

pub use extended::{decode_extended_payload, encode_extended_packet, Extended, ExtendedResponse};
pub use file::{
    FileTransferExit, FileTransferInit, FileTransferInitResponse, FileTransferRead,
    FileTransferSetLink, FileTransferWrite,
};
pub use kv::{KVRead, KVWrite};
pub use remote::SwitchChannel;
pub use simple::{Simple, SimpleResponse, SYNC_SCAN_LIMIT};
pub use system::{GetSystemVersion, V5SystemVersion};

use crate::errors::DecodeError;

verus! {

/// The request/response contract every command implements.
///
/// The trait itself carries no contract: each implementation states exactly
/// what its request bytes are and when its response decodes.
pub trait Command: Sized {
    /// What a successful response decodes to.
    type Response;

    /// Encodes the host-to-device request as a simple-command byte and the
    /// full byte sequence to transmit for it.
    fn encode_request(self) -> Result<(u8, Vec<u8>), DecodeError>;

    /// Decodes a device-to-host response from the received simple-command
    /// byte and the received simple-packet payload.
    fn decode_response(command_id: u8, data: Vec<u8>) -> Result<Self::Response, DecodeError>;
}

} // verus!
