use vstd::prelude::*;

verus! {

/// Errors reported by the emulator library.
#[derive(Debug, Clone, Copy, PartialEq, Eq, Structural)]
pub enum Error {
    /// An access past the end of a memory bank.
    MemoryFault { address: usize, size: usize },
    /// An instruction was handed an operand of a kind it cannot use.
    OperandUnsupported,
    /// A bit instruction was handed an operand of the wrong addressing mode.
    InvalidAddressingMode,
    /// An opcode byte with no instruction.
    UnsupportedInstruction { opcode: u8 },
    /// The WAI instruction is not implemented.
    WaiUnsupported,
    /// A chunk or buffer had a size that the disk format does not allow.
    InvalidSize,
    /// A disk image ended before a complete field could be read.
    UnexpectedEof,
    /// The disk image does not start with a WOZ signature.
    InvalidSignature,
    /// The byte after the WOZ signature is not 0xff.
    InvalidHeaderMarker,
    /// The LF CR LF sequence of the WOZ header is missing.
    InvalidHeaderLineEnding,
    /// The first chunk of a WOZ image is not INFO.
    InvalidInfoChunkId,
    /// The INFO chunk does not have its fixed size.
    InvalidInfoChunkSize,
    /// A chunk is larger than the largest chunk accepted.
    ChunkTooLarge { size: usize },
    /// The INFO chunk names a disk type that is not known.
    UnknownDiskType { value: u8 },
    /// The checksum of a WOZ image does not match its contents.
    InvalidCrc,
    /// The WOZ image holds no track data.
    MissingTracks,
    /// A track block points outside of the image.
    InvalidTrackBlock,
    /// The creator field of the INFO chunk is not valid UTF-8.
    InvalidCreator,
    /// A line of the META chunk is not valid UTF-8.
    InvalidMetadata,
    /// A sector given to the encoder was not 256 bytes long.
    InvalidSectorLength,
    /// A peripheral slot number larger than 7.
    InvalidSlot,
    /// A peripheral slot that is already occupied.
    SlotOccupied { slot: usize },
    /// The disk image kind is not supported.
    UnsupportedDiskType,
    /// An address that no memory answers.
    UnmappedAddress { address: u16 },
    /// A card was asked for an expansion ROM it does not have.
    NoExpansionRom,
    /// A program file whose kind is not known by its name.
    UnsupportedProgramType,
    /// A debugger command lacks an argument.
    MissingArgument,
    /// A number in a debugger command cannot be read.
    InvalidInteger,
    /// A quarter track with no track map entry.
    TrackNotFound,
}

} // verus!
