//! The types a file transfer is described with at the device level: open
//! parameters, negotiated transfer metadata, and per-file metadata records.

use vstd::prelude::*;

verus! {

/// The filesystem target of a file operation.
#[derive(Debug, Clone, Copy, PartialEq, Eq, Structural)]
pub enum VexFileTarget {
    /// Volatile memory.
    DDR,
    /// The flash storage where program files live.
    FLASH,
    /// The screen capture memory.
    SCREEN,
}

impl VexFileTarget {
    /// The target's wire byte.
    pub open spec fn spec_u8(self) -> u8 {
        match self {
            VexFileTarget::DDR => 0,
            VexFileTarget::FLASH => 1,
            VexFileTarget::SCREEN => 2,
        }
    }

    /// Converts the target to its wire byte: `0` DDR, `1` flash, `2`
    /// screen.
    #[verifier::when_used_as_spec(spec_u8)]
    pub fn to_u8(self) -> (r: u8)
        ensures
            r == self.spec_u8(),
    {
        match self {
            VexFileTarget::DDR => 0,
            VexFileTarget::FLASH => 1,
            VexFileTarget::SCREEN => 2,
        }
    }
}

/// The mode a file is opened with: uploading to or downloading from the
/// brain, with the target storage and whether linked files load too.
#[derive(Debug, Clone, Copy, PartialEq, Eq, Structural)]
pub enum VexFileMode {
    /// Open the file for uploading to the brain.
    Upload(VexFileTarget, bool),
    /// Open the file for downloading from the brain.
    Download(VexFileTarget, bool),
}

/// Different possible VEX VIDs: which software owns a file.
#[derive(Debug, Clone, Copy, PartialEq, Eq, Structural)]
pub enum VexVID {
    /// A user file.
    USER,
    /// A system file.
    SYSTEM,
    /// A Robot Mesh Studio file.
    RMS,
    /// A PROS file.
    PROS,
    /// An MW file.
    MW,
}

impl VexVID {
    /// The VID's wire byte.
    pub open spec fn spec_u8(self) -> u8 {
        match self {
            VexVID::USER => 1,
            VexVID::SYSTEM => 15,
            VexVID::RMS => 16,
            VexVID::PROS => 24,
            VexVID::MW => 32,
        }
    }

    /// Converts the VID to its wire byte: `1` user, `15` system, `16`
    /// RMS, `24` PROS, `32` MW.
    #[verifier::when_used_as_spec(spec_u8)]
    pub fn to_u8(self) -> (r: u8)
        ensures
            r == self.spec_u8(),
    {
        match self {
            VexVID::USER => 1,
            VexVID::SYSTEM => 15,
            VexVID::RMS => 16,
            VexVID::PROS => 24,
            VexVID::MW => 32,
        }
    }
}

impl Default for VexVID {
    /// The default VID is the user VID.
    fn default() -> (r: Self)
        ensures
            r == VexVID::USER,
    {
        VexVID::USER
    }
}

/// The metadata a file transfer is initiated with.
#[derive(Debug, Clone, Copy, PartialEq, Eq)]
pub struct VexInitialFileMetadata {
    /// Whether the transfer uploads or downloads, and its target.
    pub function: VexFileMode,
    /// Which software owns the file.
    pub vid: VexVID,
    /// Extra option bits, ORed into the overwrite bit the mode sets.
    pub options: u8,
    /// The length of the file.
    pub length: u32,
    /// The address of the transfer.
    pub addr: u32,
    /// The CRC-32 of the file contents.
    pub crc: u32,
    /// The four type-tag bytes, three characters and a NUL.
    pub file_type: [u8; 4],
    /// Seconds since the year 2000.
    pub timestamp: u32,
    /// The version of the file, one byte per component.
    pub version: u32,
}

impl Default for VexInitialFileMetadata {
    /// Uploads a binary to flash at the default load address, overwriting
    /// what is there.  The timestamp is left at zero: the wall clock is
    /// the caller's business.
    fn default() -> (r: Self)
        ensures
            r == (VexInitialFileMetadata {
                function: VexFileMode::Upload(VexFileTarget::FLASH, true),
                vid: VexVID::USER,
                options: 0,
                length: 0,
                addr: 0x3800000,
                crc: 0,
                file_type: [0x62u8, 0x69u8, 0x6Eu8, 0u8],
                timestamp: 0,
                version: 0,
            }),
    {
        VexInitialFileMetadata {
            function: VexFileMode::Upload(VexFileTarget::FLASH, true),
            vid: VexVID::USER,
            options: 0,
            length: 0,
            addr: 0x3800000,
            crc: 0,
            file_type: [0x62, 0x69, 0x6E, 0x00],
            timestamp: 0,
            version: 0,
        }
    }
}

/// What the brain does once a file transfer finishes.
#[derive(Debug, Clone, Copy, PartialEq, Eq, Structural)]
pub enum VexFiletransferFinished {
    /// Do nothing.
    DoNothing,
    /// Run the transferred program.
    RunProgram,
    /// Show the program run screen.
    ShowRunScreen,
}

impl VexFiletransferFinished {
    /// The action's wire byte.
    pub open spec fn spec_u8(self) -> u8 {
        match self {
            VexFiletransferFinished::DoNothing => 0b0,
            VexFiletransferFinished::RunProgram => 0b1,
            VexFiletransferFinished::ShowRunScreen => 0b11,
        }
    }

    /// Converts the action to its wire byte.
    #[verifier::when_used_as_spec(spec_u8)]
    pub fn to_u8(self) -> (r: u8)
        ensures
            r == self.spec_u8(),
    {
        match self {
            VexFiletransferFinished::DoNothing => 0b0,
            VexFiletransferFinished::RunProgram => 0b1,
            VexFiletransferFinished::ShowRunScreen => 0b11,
        }
    }
}

impl Default for VexFiletransferFinished {
    /// By default the brain does nothing when a transfer finishes.
    fn default() -> (r: Self)
        ensures
            r == VexFiletransferFinished::DoNothing,
    {
        VexFiletransferFinished::DoNothing
    }
}

/// The metadata a successful open exchange negotiates, immutable for the
/// lifetime of the transfer.
#[derive(Debug, Clone, Copy, PartialEq, Eq, Structural)]
pub struct VexFiletransferMetadata {
    /// The largest packet the device will accept in this transfer.
    pub max_packet_size: u16,
    /// The total size of the file being transferred.
    pub file_size: u32,
    /// The CRC-32 of the file contents.
    pub crc: u32,
}

/// File metadata referenced by the file's index.
#[derive(Debug, PartialEq, Eq)]
pub struct VexFileMetadataByIndex {
    /// The index of the file.
    pub idx: u8,
    /// The size of the file.
    pub size: u32,
    /// The address the file loads at.
    pub addr: u32,
    /// The CRC-32 of the file contents.
    pub crc: u32,
    /// The four type-tag bytes.
    pub file_type: [u8; 4],
    /// Seconds since the year 2000.
    pub timestamp: u32,
    /// The version of the file.
    pub version: u32,
    /// The file name, 24 NUL-padded bytes.
    pub filename: Vec<u8>,
}

/// File metadata referenced by the file's name.
#[derive(Debug, PartialEq, Eq)]
pub struct VexFileMetadataByName {
    /// The VID of the linked file.
    pub linked_vid: u8,
    /// The size of the file.
    pub size: u32,
    /// The address the file loads at.
    pub addr: u32,
    /// The CRC-32 of the file contents.
    pub crc: u32,
    /// The four type-tag bytes.
    pub file_type: [u8; 4],
    /// Seconds since the year 2000.
    pub timestamp: u32,
    /// The version of the file.
    pub version: u32,
    /// The linked file name, 24 NUL-padded bytes.
    pub linked_filename: Vec<u8>,
}

/// File metadata sent to the brain to be set on a program file.
#[derive(Debug, Clone, Copy, PartialEq, Eq)]
pub struct VexFileMetadataSet {
    /// The VID byte to set.
    pub vid: u8,
    /// The option bits to set.
    pub options: u8,
    /// The address the file loads at.
    pub addr: u32,
    /// The four type-tag bytes.
    pub file_type: [u8; 4],
    /// Seconds since the year 2000.
    pub timestamp: u32,
    /// The version of the file.
    pub version: u32,
}

} // verus!
