//! Host-side driver for the VEX V5 serial protocol.
//!
//! The library implements the wire codec for the V5 brain: CRC16/XMODEM
//! checksums, the simple-packet envelope, the extended-command sub-protocol,
//! the acknowledgement taxonomy, the concrete command set (system version,
//! key-value store, channel switching, file transfer), and the chunked
//! file-transfer session layered on top.  Transports (serial ports, sockets)
//! plug in through the [`io::ByteStream`] trait.

pub mod checks;
pub mod checksum;
pub mod commands;
pub mod device;
pub mod errors;
pub mod io;
pub mod meta;
pub mod ports;
pub mod protocol;
pub mod wire;

pub use checks::VexExtPacketChecks;
pub use errors::{DecodeError, DeviceError, VexACKType};
