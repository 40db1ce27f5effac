use vstd::prelude::*;

verus! {

/// Why a file could not be decoded. Every error ends the whole decode.
#[derive(Clone, Copy, Debug, PartialEq, Eq, Structural)]
pub enum LBMError {
    /// The input ended before a read could take all the bytes it needed.
    ShortRead,
    /// The file does not open with the "FORM" tag.
    BadForm,
    /// The declared size of the FORM cannot hold a minimal image.
    BadSize,
    /// The FORM type is neither "ILBM" nor "PBM ".
    BadType,
    /// A chunk is shorter than its kind allows, or its own counts claim
    /// more bytes than its declared length holds.
    BadChunk,
    /// The FORM holds no "BMHD" header chunk.
    MissingHeader,
    /// A chunk kind that may occur once occurred a second time.
    ChunkConflict,
}

} // verus!
