//! Error taxonomy for the codec and the device layer, and the device
//! acknowledgement byte.

use vstd::prelude::*;

verus! {

/// A V5 device answers every extended request with a single acknowledgement
/// byte.  `ACK` reports success; the `NACK*` variants enumerate the specific
/// failures the firmware can report.
#[derive(Debug, Clone, Copy, PartialEq, Eq, Structural)]
pub enum VexACKType {
    /// Acknowledges that a packet has been received.
    ACK,
    /// A CRC checksum did not validate on the device.
    NACKCrcError,
    /// The payload was too short.
    NACKPayloadShort,
    /// The requested transfer moves more data than the device allows.
    NACKTransferSizeTooLarge,
    /// A program's CRC check failed.
    NACKProgramCrcFailed,
    /// There is an error with the program file.
    NACKProgramFileError,
    /// File operations were attempted before a transfer was initialized.
    NACKUninitializedTransfer,
    /// A file transfer was initialized incorrectly.
    NACKInitializationInvalid,
    /// A transfer was not padded to a four byte boundary.
    NACKLengthNotPaddedTo4,
    /// The address on a file transfer does not match.
    NACKAddressNoMatch,
    /// The download length on a file transfer does not match.
    NACKDownloadLengthNoMatch,
    /// A file transfer tried to access a directory that does not exist.
    NACKDirectoryNoExist,
    /// There is not enough room to upload the file.
    NACKNoFileRoom,
    /// The file already exists and overwrite was not requested.
    NACKFileAlreadyExists,
    /// A general NACK that is sometimes received.
    NACKGeneral,
}

/// The acknowledgement variant documented for a byte, if any.  The documented
/// set is `0x76` (ACK) and the NACK codes `0xCE` and `0xD0`-`0xDB`.
pub open spec fn spec_ack_from_u8(v: u8) -> Option<VexACKType> {
    match v {
        0x76u8 => Some(VexACKType::ACK),
        0xCEu8 => Some(VexACKType::NACKCrcError),
        0xD0u8 => Some(VexACKType::NACKPayloadShort),
        0xD1u8 => Some(VexACKType::NACKTransferSizeTooLarge),
        0xD2u8 => Some(VexACKType::NACKProgramCrcFailed),
        0xD3u8 => Some(VexACKType::NACKProgramFileError),
        0xD4u8 => Some(VexACKType::NACKUninitializedTransfer),
        0xD5u8 => Some(VexACKType::NACKInitializationInvalid),
        0xD6u8 => Some(VexACKType::NACKLengthNotPaddedTo4),
        0xD7u8 => Some(VexACKType::NACKAddressNoMatch),
        0xD8u8 => Some(VexACKType::NACKDownloadLengthNoMatch),
        0xD9u8 => Some(VexACKType::NACKDirectoryNoExist),
        0xDAu8 => Some(VexACKType::NACKNoFileRoom),
        0xDBu8 => Some(VexACKType::NACKFileAlreadyExists),
        _ => None,
    }
}

impl VexACKType {
    /// Converts a byte to an acknowledgement variant.  The mapping is total
    /// over the documented byte values; every other byte is rejected with
    /// [`DecodeError::InvalidAck`] rather than coerced to a default.
    pub fn from_u8(v: u8) -> (r: Result<Self, DecodeError>)
        ensures
            match r {
                Ok(a) => spec_ack_from_u8(v) == Some(a),
                Err(e) => spec_ack_from_u8(v) is None && e == DecodeError::InvalidAck,
            },
    {
        match v {
            0x76 => Ok(Self::ACK),
            0xCE => Ok(Self::NACKCrcError),
            0xD0 => Ok(Self::NACKPayloadShort),
            0xD1 => Ok(Self::NACKTransferSizeTooLarge),
            0xD2 => Ok(Self::NACKProgramCrcFailed),
            0xD3 => Ok(Self::NACKProgramFileError),
            0xD4 => Ok(Self::NACKUninitializedTransfer),
            0xD5 => Ok(Self::NACKInitializationInvalid),
            0xD6 => Ok(Self::NACKLengthNotPaddedTo4),
            0xD7 => Ok(Self::NACKAddressNoMatch),
            0xD8 => Ok(Self::NACKDownloadLengthNoMatch),
            0xD9 => Ok(Self::NACKDirectoryNoExist),
            0xDA => Ok(Self::NACKNoFileRoom),
            0xDB => Ok(Self::NACKFileAlreadyExists),
            _ => Err(DecodeError::InvalidAck),
        }
    }
}

/// An error communicating with a device, outside of packet decoding proper.
#[derive(Debug, Clone, Copy, PartialEq, Eq, Structural)]
pub enum DeviceError {
    /// The underlying transport failed.
    IoError,
    /// The user port can not be written to over wireless control.
    NoWriteOnWireless,
    /// The device is not a supported VEX device.
    InvalidDevice,
    /// No serial ports were found at all.
    NoPortsFound,
    /// No system or controller port was found among the known ports.
    NoSystemPort,
    /// An attempt was made to communicate with an unconnected device.
    NotConnected,
    /// A device returned an invalid magic number.
    InvalidMagic,
}

/// An error in decoding a packet.
#[derive(Debug, Clone, Copy, PartialEq, Eq, Structural)]
pub enum DecodeError {
    /// The underlying transport failed.
    IoError,
    /// The timeout elapsed while waiting for a response header.
    HeaderTimeout,
    /// An extended packet was expected but something else arrived.
    ExpectedExtended,
    /// A CRC checksum failed.
    CrcError,
    /// A packet was too short for the fields it must carry.
    PacketLengthError,
    /// An acknowledgement byte outside the documented set was received.
    InvalidAck,
    /// The device refused the request with the carried NACK.
    NACK(VexACKType),
    /// A response carried an unexpected command id: expected, then actual.
    ExpectedCommand(u8, u8),
    /// A response carried a command byte outside the documented set.
    UnknownCommand(u8),
    /// An input string was not ASCII, so it cannot be sent on the wire.
    NotAscii,
    /// A string received from the device was not valid UTF-8.
    Utf8Error,
    /// A device-level error occurred.
    DeviceError(DeviceError),
}

} // verus!
