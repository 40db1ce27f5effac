//! The standard bitmap header chunk, "BMHD".

use vstd::prelude::*;
use crate::bytes::{fits, has_bytes, i16_at, spec_i16_at, spec_u16_at, u16_at, u8_at};
use crate::error::LBMError;

verus! {

/// How the image is masked; the raw byte as stored.
#[derive(Clone, Copy, Debug, PartialEq, Eq, Structural)]
pub struct Mask(pub u8);

impl Mask {
    pub const NONE: u8 = 0;
    pub const HAS_MASK: u8 = 1;
    pub const HAS_TRANSPARENT: u8 = 2;
    pub const LASSO: u8 = 3;

    pub open spec fn spec_name(self) -> Option<&'static str> {
        if self.0 == Self::NONE {
            Some("None")
        } else if self.0 == Self::HAS_MASK {
            Some("Masked")
        } else if self.0 == Self::HAS_TRANSPARENT {
            Some("Transparency")
        } else if self.0 == Self::LASSO {
            Some("Lasso")
        } else {
            None
        }
    }

    /// The name of a known masking value.
    pub fn name(&self) -> (r: Option<&'static str>)
        ensures
            r == self.spec_name(),
    {
        if self.0 == Self::NONE {
            Some("None")
        } else if self.0 == Self::HAS_MASK {
            Some("Masked")
        } else if self.0 == Self::HAS_TRANSPARENT {
            Some("Transparency")
        } else if self.0 == Self::LASSO {
            Some("Lasso")
        } else {
            None
        }
    }
}

impl Default for Mask {
    fn default() -> (r: Mask)
        ensures
            r == Mask(Mask::NONE),
    {
        Mask(Mask::NONE)
    }
}

/// How the raster data is compressed; the raw byte as stored.
#[derive(Clone, Copy, Debug, PartialEq, Eq, Structural)]
pub struct Compression(pub u8);

impl Compression {
    pub const NONE: u8 = 0;
    pub const BYTE_RUN1: u8 = 1;
    pub const VERTICAL_RLE: u8 = 2;

    pub open spec fn spec_name(self) -> Option<&'static str> {
        if self.0 == Self::NONE {
            Some("Uncompressed")
        } else if self.0 == Self::BYTE_RUN1 {
            Some("RLE (Unpacker)")
        } else if self.0 == Self::VERTICAL_RLE {
            Some("Atari (VDAT)")
        } else {
            None
        }
    }

    /// The name of a known compression method.
    pub fn name(&self) -> (r: Option<&'static str>)
        ensures
            r == self.spec_name(),
    {
        if self.0 == Self::NONE {
            Some("Uncompressed")
        } else if self.0 == Self::BYTE_RUN1 {
            Some("RLE (Unpacker)")
        } else if self.0 == Self::VERTICAL_RLE {
            Some("Atari (VDAT)")
        } else {
            None
        }
    }
}

impl Default for Compression {
    fn default() -> (r: Compression)
        ensures
            r == Compression(Compression::NONE),
    {
        Compression(Compression::NONE)
    }
}

#[derive(Clone, Copy, Debug, PartialEq, Eq)]
pub struct LBMHeader {
    pub size: (u16, u16),
    pub offset: (i16, i16),
    pub num_planes: u8,
    pub masking: Mask,
    pub compression: Compression,
    pub pad1: u8,
    pub transparent: u16,
    pub aspect: (u8, u8),
    pub page_size: (i16, i16),
}

impl LBMHeader {
    pub const ID: u32 = 0x424d4844;
    pub const SIZE: usize = 20;

    /// The header stored in the twenty bytes at `p`.
    pub open spec fn spec_read(s: Seq<u8>, p: int) -> LBMHeader {
        LBMHeader {
            size: (spec_u16_at(s, p), spec_u16_at(s, p + 2)),
            offset: (spec_i16_at(s, p + 4), spec_i16_at(s, p + 6)),
            num_planes: s[p + 8],
            masking: Mask(s[p + 9]),
            compression: Compression(s[p + 10]),
            pad1: s[p + 11],
            transparent: spec_u16_at(s, p + 12),
            aspect: (s[p + 14], s[p + 15]),
            page_size: (spec_i16_at(s, p + 16), spec_i16_at(s, p + 18)),
        }
    }

    pub fn read(data: &[u8], pos: usize) -> (r: Result<(LBMHeader, usize), LBMError>)
        ensures
            r == (if fits(data@, pos as int, 20) {
                Ok((Self::spec_read(data@, pos as int), 20usize))
            } else {
                Err(LBMError::ShortRead)
            }),
    {
        if !has_bytes(data, pos, Self::SIZE) {
            return Err(LBMError::ShortRead);
        }
        let header = LBMHeader {
            size: (u16_at(data, pos), u16_at(data, pos + 2)),
            offset: (i16_at(data, pos + 4), i16_at(data, pos + 6)),
            num_planes: u8_at(data, pos + 8),
            masking: Mask(u8_at(data, pos + 9)),
            compression: Compression(u8_at(data, pos + 10)),
            pad1: u8_at(data, pos + 11),
            transparent: u16_at(data, pos + 12),
            aspect: (u8_at(data, pos + 14), u8_at(data, pos + 15)),
            page_size: (i16_at(data, pos + 16), i16_at(data, pos + 18)),
        };
        Ok((header, Self::SIZE))
    }
}

} // verus!
