//! Querying the V5 system version and product type.

use vstd::prelude::*;

use crate::errors::DecodeError;
use crate::meta::{spec_product_from_bytes, VexProductType};
use super::Command;

verus! {

/// The simple command id that requests the system version.
pub const GET_SYSTEM_VERSION_COMMAND: u8 = 0xA4;

/// Requests the system version of the device.  This is a simple command,
/// not an extended one: the request carries no payload.
#[derive(Copy, Clone, Debug)]
pub struct GetSystemVersion();

/// The system version a V5 device reports: five version bytes and the
/// product type with its flags.
#[derive(Copy, Clone, Debug, PartialEq, Eq)]
pub struct V5SystemVersion {
    /// The five version bytes, most significant first.
    pub system_version: (u8, u8, u8, u8, u8),
    /// The product and its capability flags.
    pub product_type: VexProductType,
}

/// What a system-version response decodes to: the five version bytes and
/// the product parsed from bytes five and six.
pub open spec fn spec_system_version_response(command_id: u8, data: Seq<u8>) -> Result<
    V5SystemVersion,
    DecodeError,
> {
    if command_id != GET_SYSTEM_VERSION_COMMAND {
        Err(DecodeError::ExpectedExtended)
    } else if data.len() < 7 {
        Err(DecodeError::PacketLengthError)
    } else {
        match spec_product_from_bytes(data[5], data[6]) {
            Some(p) => Ok(
                V5SystemVersion {
                    system_version: (data[0], data[1], data[2], data[3], data[4]),
                    product_type: p,
                },
            ),
            None => Err(DecodeError::DeviceError(crate::errors::DeviceError::InvalidDevice)),
        }
    }
}

impl Command for GetSystemVersion {
    type Response = V5SystemVersion;

    /// The request is the bare simple command `0xA4` with no payload.
    fn encode_request(self) -> (r: Result<(u8, Vec<u8>), DecodeError>)
        ensures
            r matches Ok(p) && p.0 == GET_SYSTEM_VERSION_COMMAND && p.1@ == Seq::<u8>::empty(),
    {
        Ok((GET_SYSTEM_VERSION_COMMAND, Vec::new()))
    }

    fn decode_response(command_id: u8, data: Vec<u8>) -> (r: Result<V5SystemVersion, DecodeError>)
        ensures
            match r {
                Ok(v) => spec_system_version_response(command_id, data@) == Ok::<
                    _,
                    DecodeError,
                >(v),
                Err(e) => spec_system_version_response(command_id, data@) == Err::<
                    V5SystemVersion,
                    _,
                >(e),
            },
    {
        if command_id != GET_SYSTEM_VERSION_COMMAND {
            return Err(DecodeError::ExpectedExtended);
        }
        if data.len() < 7 {
            return Err(DecodeError::PacketLengthError);
        }
        let product_type = match VexProductType::try_from_bytes(data[5], data[6]) {
            Ok(p) => p,
            Err(e) => {
                return Err(DecodeError::DeviceError(e));
            },
        };
        Ok(
            V5SystemVersion {
                system_version: (data[0], data[1], data[2], data[3], data[4]),
                product_type,
            },
        )
    }
}

} // verus!
