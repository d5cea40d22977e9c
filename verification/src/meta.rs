//! Metadata about the V5 system and the files stored on the brain: the
//! enums and flag sets that appear inside command payloads, with their wire
//! byte values.

use vstd::prelude::*;

use crate::errors::DeviceError;

verus! {

/// The radio channel of a V5 controller.
#[derive(Debug, Copy, Clone, PartialEq, Eq, Structural)]
pub enum V5ControllerChannel {
    /// Driving the robot outside of a competition match.
    Pit,
    /// Wirelessly uploading or downloading data to or from the brain.
    Download,
}

impl V5ControllerChannel {
    /// The channel's wire byte.
    pub open spec fn spec_u8(self) -> u8 {
        match self {
            V5ControllerChannel::Pit => 0x00,
            V5ControllerChannel::Download => 0x01,
        }
    }

    /// Converts the channel to its wire byte: `0x00` pit, `0x01` download.
    #[verifier::when_used_as_spec(spec_u8)]
    pub fn to_u8(self) -> (r: u8)
        ensures
            r == self.spec_u8(),
    {
        match self {
            V5ControllerChannel::Pit => 0x00,
            V5ControllerChannel::Download => 0x01,
        }
    }
}

/// Configuration flags of a V5 brain.  No flags are documented, so the only
/// valid bit pattern is zero.
#[derive(Debug, Copy, Clone, PartialEq, Eq, Structural)]
pub struct V5BrainFlags {}

impl V5BrainFlags {
    /// No flags set.
    pub fn none() -> (r: Self)
        ensures
            r == (V5BrainFlags {  }),
    {
        V5BrainFlags {  }
    }

    /// Parses a flags byte: only zero is a documented pattern.
    pub fn from_bits(bits: u8) -> (r: Option<Self>)
        ensures
            r == if bits == 0 {
                Some(V5BrainFlags {  })
            } else {
                None::<V5BrainFlags>
            },
    {
        if bits == 0 {
            Some(V5BrainFlags {  })
        } else {
            None
        }
    }
}

/// Configuration flags of a V5 controller: bit 1 is set when it is
/// connected to the brain over a cable, bit 2 when over the radio.
#[derive(Debug, Copy, Clone, PartialEq, Eq, Structural)]
pub struct V5ControllerFlags {
    /// The controller is connected to the brain over a cable.
    pub connected_cable: bool,
    /// The controller is connected to the brain wirelessly.
    pub connected_wireless: bool,
}

impl V5ControllerFlags {
    /// No flags set.
    pub fn none() -> (r: Self)
        ensures
            r == (V5ControllerFlags { connected_cable: false, connected_wireless: false }),
    {
        V5ControllerFlags { connected_cable: false, connected_wireless: false }
    }

    /// Parses a flags byte.  Bits above the two documented ones make the
    /// pattern undocumented, which is reported as `None`.
    pub fn from_bits(bits: u8) -> (r: Option<Self>)
        ensures
            r == if bits < 4 {
                Some(
                    V5ControllerFlags {
                        connected_cable: bits % 2 == 1,
                        connected_wireless: bits / 2 % 2 == 1,
                    },
                )
            } else {
                None::<V5ControllerFlags>
            },
    {
        if bits < 4 {
            Some(
                V5ControllerFlags {
                    connected_cable: bits % 2 == 1,
                    connected_wireless: bits / 2 % 2 == 1,
                },
            )
        } else {
            None
        }
    }
}

/// The product a V5 device reports itself as, with its flags.
#[derive(Debug, Copy, Clone, PartialEq, Eq, Structural)]
pub enum VexProductType {
    /// A V5 robot brain.
    V5Brain(V5BrainFlags),
    /// A V5 robot controller.
    V5Controller(V5ControllerFlags),
}

/// The product variant for a product byte and flags byte, if the product
/// byte is documented.  Undocumented flag bits fall back to no flags, as
/// the device sets bits the host does not know yet.
pub open spec fn spec_product_from_bytes(product: u8, flags: u8) -> Option<VexProductType> {
    if product == 0x10 {
        Some(VexProductType::V5Brain(V5BrainFlags {  }))
    } else if product == 0x11 {
        Some(
            VexProductType::V5Controller(
                if flags < 4 {
                    V5ControllerFlags {
                        connected_cable: flags % 2 == 1,
                        connected_wireless: flags / 2 % 2 == 1,
                    }
                } else {
                    V5ControllerFlags { connected_cable: false, connected_wireless: false }
                },
            ),
        )
    } else {
        None
    }
}

impl VexProductType {
    /// The product's wire byte: `0x10` brain, `0x11` controller.
    pub open spec fn spec_u8(self) -> u8 {
        match self {
            VexProductType::V5Brain(_) => 0x10,
            VexProductType::V5Controller(_) => 0x11,
        }
    }

    /// Converts the product to its wire byte.
    #[verifier::when_used_as_spec(spec_u8)]
    pub fn to_u8(self) -> (r: u8)
        ensures
            r == self.spec_u8(),
    {
        match self {
            VexProductType::V5Brain(_) => 0x10,
            VexProductType::V5Controller(_) => 0x11,
        }
    }

    /// Parses the product byte and flags byte of a system-version
    /// response.  An unknown product byte is an error; unknown flag bits
    /// are tolerated and read as no flags.
    pub fn try_from_bytes(product: u8, flags: u8) -> (r: Result<Self, DeviceError>)
        ensures
            match r {
                Ok(p) => spec_product_from_bytes(product, flags) == Some(p),
                Err(e) => spec_product_from_bytes(product, flags) is None && e
                    == DeviceError::InvalidDevice,
            },
    {
        if product == 0x10 {
            let flags = match V5BrainFlags::from_bits(flags) {
                Some(f) => f,
                None => V5BrainFlags::none(),
            };
            Ok(VexProductType::V5Brain(flags))
        } else if product == 0x11 {
            let flags = match V5ControllerFlags::from_bits(flags) {
                Some(f) => f,
                None => V5ControllerFlags::none(),
            };
            Ok(VexProductType::V5Controller(flags))
        } else {
            Err(DeviceError::InvalidDevice)
        }
    }
}

/// The direction of a file transfer.
#[derive(Debug, Copy, Clone, PartialEq, Eq, Structural)]
pub enum FileTransferFunction {
    /// Writing a file to the brain.
    Upload,
    /// Reading a file from the brain.
    Download,
}

impl FileTransferFunction {
    /// The function's wire byte.
    pub open spec fn spec_u8(self) -> u8 {
        match self {
            FileTransferFunction::Upload => 0x01,
            FileTransferFunction::Download => 0x02,
        }
    }

    /// Converts the function to its wire byte: `0x01` upload, `0x02`
    /// download.
    #[verifier::when_used_as_spec(spec_u8)]
    pub fn to_u8(self) -> (r: u8)
        ensures
            r == self.spec_u8(),
    {
        match self {
            FileTransferFunction::Upload => 0x01,
            FileTransferFunction::Download => 0x02,
        }
    }
}

/// The target storage of a file transfer.
#[derive(Debug, Copy, Clone, PartialEq, Eq, Structural)]
pub enum FileTransferTarget {
    /// The flash memory where program files live.
    Flash,
    /// The memory read when capturing the screen.
    Screen,
}

impl FileTransferTarget {
    /// The target's wire byte.
    pub open spec fn spec_u8(self) -> u8 {
        match self {
            FileTransferTarget::Flash => 0x01,
            FileTransferTarget::Screen => 0x02,
        }
    }

    /// Converts the target to its wire byte: `0x01` flash, `0x02` screen.
    #[verifier::when_used_as_spec(spec_u8)]
    pub fn to_u8(self) -> (r: u8)
        ensures
            r == self.spec_u8(),
    {
        match self {
            FileTransferTarget::Flash => 0x01,
            FileTransferTarget::Screen => 0x02,
        }
    }
}

/// The VID of a file transfer: which software owns the file.
#[derive(Debug, Copy, Clone, PartialEq, Eq, Structural)]
pub enum FileTransferVID {
    /// A user file.
    User,
    /// A system file.
    System,
    /// A Robot Mesh Studio file.
    RMS,
    /// A PROS file.
    PROS,
    /// An MW file.
    MW,
    /// Any other VID byte.
    Other(u8),
}

impl FileTransferVID {
    /// The variant a VID byte reads as.
    pub open spec fn spec_from_u8(v: u8) -> FileTransferVID {
        match v {
            1u8 => FileTransferVID::User,
            15u8 => FileTransferVID::System,
            16u8 => FileTransferVID::RMS,
            24u8 => FileTransferVID::PROS,
            32u8 => FileTransferVID::MW,
            a => FileTransferVID::Other(a),
        }
    }

    /// The VID's wire byte.
    pub open spec fn spec_u8(self) -> u8 {
        match self {
            FileTransferVID::User => 1,
            FileTransferVID::System => 15,
            FileTransferVID::RMS => 16,
            FileTransferVID::PROS => 24,
            FileTransferVID::MW => 32,
            FileTransferVID::Other(a) => a,
        }
    }

    /// Reads a VID byte: `1` user, `15` system, `16` RMS, `24` PROS, `32`
    /// MW, anything else is kept as-is.
    #[verifier::when_used_as_spec(spec_from_u8)]
    pub fn from_u8(v: u8) -> (r: Self)
        ensures
            r == Self::spec_from_u8(v),
    {
        match v {
            1 => Self::User,
            15 => Self::System,
            16 => Self::RMS,
            24 => Self::PROS,
            32 => Self::MW,
            a => Self::Other(a),
        }
    }

    /// Converts the VID to its wire byte.
    #[verifier::when_used_as_spec(spec_u8)]
    pub fn to_u8(self) -> (r: u8)
        ensures
            r == self.spec_u8(),
    {
        match self {
            FileTransferVID::User => 1,
            FileTransferVID::System => 15,
            FileTransferVID::RMS => 16,
            FileTransferVID::PROS => 24,
            FileTransferVID::MW => 32,
            FileTransferVID::Other(a) => a,
        }
    }
}

/// Options of a file transfer: bit 1 asks the device to overwrite the file.
#[derive(Debug, Copy, Clone, PartialEq, Eq, Structural)]
pub struct FileTransferOptions {
    /// Overwrite the file if it already exists.
    pub overwrite: bool,
}

impl FileTransferOptions {
    /// The options' wire byte.
    pub open spec fn spec_bits(self) -> u8 {
        if self.overwrite {
            1
        } else {
            0
        }
    }

    /// No options set.
    pub fn none() -> (r: Self)
        ensures
            r == (FileTransferOptions { overwrite: false }),
    {
        FileTransferOptions { overwrite: false }
    }

    /// Converts the options to their wire byte.
    #[verifier::when_used_as_spec(spec_bits)]
    pub fn bits(self) -> (r: u8)
        ensures
            r == self.spec_bits(),
    {
        if self.overwrite {
            1
        } else {
            0
        }
    }
}

/// The type tag of a file: at most three ASCII characters, sent as four
/// bytes with a trailing NUL.
#[derive(Debug, Copy, Clone, PartialEq, Eq)]
pub enum FileTransferType {
    /// A binary file, generally a program.
    Bin,
    /// An ini file with program metadata and configuration.
    Ini,
    /// Any other file type, as its three tag bytes.
    Other([u8; 3]),
}

impl FileTransferType {
    /// The four wire bytes of the type tag.
    pub open spec fn spec_bytes(self) -> Seq<u8> {
        match self {
            FileTransferType::Bin => seq![0x62u8, 0x69u8, 0x6Eu8, 0u8],
            FileTransferType::Ini => seq![0x69u8, 0x6Eu8, 0x69u8, 0u8],
            FileTransferType::Other(t) => seq![t[0], t[1], t[2], 0u8],
        }
    }

    /// The variant four tag bytes read as.
    pub open spec fn spec_from_bytes(v: Seq<u8>) -> FileTransferType
        recommends
            v.len() == 4,
    {
        if v == seq![0x62u8, 0x69u8, 0x6Eu8, 0u8] {
            FileTransferType::Bin
        } else if v == seq![0x69u8, 0x6Eu8, 0x69u8, 0u8] {
            FileTransferType::Ini
        } else {
            FileTransferType::Other([v[0], v[1], v[2]])
        }
    }

    /// Converts the type to its four wire bytes, `"bin\0"` and `"ini\0"`
    /// for the named variants.
    pub fn to_bytes(self) -> (r: [u8; 4])
        ensures
            r@ == self.spec_bytes(),
    {
        match self {
            Self::Bin => [0x62, 0x69, 0x6E, 0x00],
            Self::Ini => [0x69, 0x6E, 0x69, 0x00],
            Self::Other(t) => [t[0], t[1], t[2], 0u8],
        }
    }

    /// Reads four tag bytes back into a type.
    pub fn from_bytes(v: &[u8; 4]) -> (r: Self)
        ensures
            r == Self::spec_from_bytes(v@),
    {
        if v[0] == 0x62 && v[1] == 0x69 && v[2] == 0x6E && v[3] == 0x00 {
            proof {
                assert(v@ =~= seq![0x62u8, 0x69u8, 0x6Eu8, 0u8]);
            }
            Self::Bin
        } else if v[0] == 0x69 && v[1] == 0x6E && v[2] == 0x69 && v[3] == 0x00 {
            proof {
                assert(v@ =~= seq![0x69u8, 0x6Eu8, 0x69u8, 0u8]);
            }
            Self::Ini
        } else {
            proof {
                assert(v@ != seq![0x62u8, 0x69u8, 0x6Eu8, 0u8]);
                assert(v@ != seq![0x69u8, 0x6Eu8, 0x69u8, 0u8]);
            }
            Self::Other([v[0], v[1], v[2]])
        }
    }
}

/// The action the brain runs when a file transfer completes.
#[derive(Debug, Copy, Clone, PartialEq, Eq, Structural)]
pub enum FileTransferComplete {
    /// Do nothing.
    DoNothing,
    /// Run the transferred program.
    RunProgram,
    /// Show the program run screen.
    ShowRunScreen,
}

impl FileTransferComplete {
    /// The action's wire byte.
    pub open spec fn spec_u8(self) -> u8 {
        match self {
            FileTransferComplete::DoNothing => 0,
            FileTransferComplete::RunProgram => 1,
            FileTransferComplete::ShowRunScreen => 2,
        }
    }

    /// Converts the action to its wire byte: `0` nothing, `1` run, `2`
    /// show the run screen.
    #[verifier::when_used_as_spec(spec_u8)]
    pub fn to_u8(self) -> (r: u8)
        ensures
            r == self.spec_u8(),
    {
        match self {
            FileTransferComplete::DoNothing => 0,
            FileTransferComplete::RunProgram => 1,
            FileTransferComplete::ShowRunScreen => 2,
        }
    }
}

/// File metadata returned when requesting file metadata by index.
#[derive(Debug)]
pub struct FileMetadataByIndex {
    /// The index of the file.
    pub idx: u8,
    /// The type tag of the file.
    pub file_type: FileTransferType,
    /// The length of the file.
    pub length: u32,
    /// The address the file loads at.
    pub addr: u32,
    /// The CRC-32 of the file contents.
    pub crc: u32,
    /// Seconds since the year 2000 when the file was last edited.
    pub timestamp: u32,
    /// The version of the file, packed one byte per component.
    pub version: u32,
    /// The name of the file, 24 NUL-padded bytes.
    pub name: Vec<u8>,
}

/// File metadata returned when requesting file metadata by name.
#[derive(Debug)]
pub struct FileMetadataByName {
    /// The VID of the linked file.
    pub linked_vid: FileTransferVID,
    /// The type tag of the file.
    pub file_type: FileTransferType,
    /// The length of the file.
    pub length: u32,
    /// The address the file loads at.
    pub addr: u32,
    /// The CRC-32 of the file contents.
    pub crc: u32,
    /// Seconds since the year 2000 when the file was last edited.
    pub timestamp: u32,
    /// The version of the file, packed one byte per component.
    pub version: u32,
    /// The name of the linked file, 24 NUL-padded bytes.
    pub linked_filename: Vec<u8>,
}

} // verus!
