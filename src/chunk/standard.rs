//! Standard ILBM chunks: palette, grab point and raster data.

use vstd::prelude::*;
use crate::bytes::{byte_or_zero, fits, has_bytes, i16_at, spec_byte_or_zero, spec_i16_at};
use crate::error::LBMError;

verus! {

#[derive(Clone, Copy, Debug, Default, PartialEq, Eq)]
pub struct Rgb {
    pub r: u8,
    pub g: u8,
    pub b: u8,
}

/// The palette, "CMAP": one colour for each whole three bytes of payload.
#[derive(Clone, Debug, PartialEq, Eq)]
pub struct ColourMap {
    pub entries: Vec<Rgb>,
}

impl View for ColourMap {
    type V = Seq<Rgb>;

    open spec fn view(&self) -> Seq<Rgb> {
        self.entries@
    }
}

/// The colour at `p`, a byte past the end of `s` reading as zero.
pub open spec fn spec_rgb_at(s: Seq<u8>, p: int) -> Rgb {
    Rgb { r: spec_byte_or_zero(s, p), g: spec_byte_or_zero(s, p + 1), b: spec_byte_or_zero(s, p + 2) }
}

impl ColourMap {
    pub const ID: u32 = 0x434d4150;
    pub const SIZE: usize = 0;

    /// The `size / 3` colours stored from `p` on.
    pub open spec fn spec_read(s: Seq<u8>, p: int, size: int) -> Seq<Rgb> {
        Seq::new((size / 3) as nat, |i: int| spec_rgb_at(s, p + 3 * i))
    }

    /// How many bytes of those colours the input really holds.
    pub open spec fn spec_consumed(s: Seq<u8>, p: int, size: int) -> int {
        if s.len() - p < 3 * (size / 3) { s.len() - p } else { 3 * (size / 3) }
    }

    /// Reads `size / 3` colours; where the input ends early the missing
    /// bytes read as zero and are not counted as consumed.
    pub fn read(data: &[u8], pos: usize, size: usize) -> (r: (ColourMap, usize))
        requires
            pos <= data@.len(),
        ensures
            r.0@ == Self::spec_read(data@, pos as int, size as int),
            r.1 == Self::spec_consumed(data@, pos as int, size as int),
    {
        let n = size / 3;
        let mut entries: Vec<Rgb> = Vec::new();
        let mut i: usize = 0;
        while i < n
            invariant
                n == size / 3,
                i <= n,
                pos <= data@.len(),
                entries@.len() == i,
                forall|j: int| 0 <= j < i ==> entries@[j] == spec_rgb_at(data@, pos + 3 * j),
            decreases n - i,
        {
            let off = 3 * i;
            let rgb = Rgb {
                r: byte_or_zero(data, pos, off),
                g: byte_or_zero(data, pos, off + 1),
                b: byte_or_zero(data, pos, off + 2),
            };
            entries.push(rgb);
            i = i + 1;
        }
        let avail = data.len() - pos;
        let consumed = if avail < 3 * n { avail } else { 3 * n };
        proof {
            assert(entries@ =~= Self::spec_read(data@, pos as int, size as int));
        }
        (ColourMap { entries }, consumed)
    }
}

/// The hot spot of a brush, "GRAB".
#[derive(Clone, Copy, Debug, PartialEq, Eq)]
pub struct Grab {
    pub point: (i16, i16),
}

impl Grab {
    pub const ID: u32 = 0x47524142;
    pub const SIZE: usize = 4;

    pub open spec fn spec_read(s: Seq<u8>, p: int) -> Grab {
        Grab { point: (spec_i16_at(s, p), spec_i16_at(s, p + 2)) }
    }

    pub fn read(data: &[u8], pos: usize) -> (r: Result<(Grab, usize), LBMError>)
        ensures
            r == (if fits(data@, pos as int, 4) {
                Ok((Self::spec_read(data@, pos as int), 4usize))
            } else {
                Err(LBMError::ShortRead)
            }),
    {
        if !has_bytes(data, pos, Self::SIZE) {
            return Err(LBMError::ShortRead);
        }
        Ok((Grab { point: (i16_at(data, pos), i16_at(data, pos + 2)) }, Self::SIZE))
    }
}

/// The raster data, "BODY": only its length is kept.
#[derive(Clone, Copy, Debug, PartialEq, Eq)]
pub struct Body {
    pub len: usize,
}

impl Body {
    pub const ID: u32 = 0x424f4459;
    pub const SIZE: usize = 0;

    /// The payload length less the four-byte prefix, or zero when shorter.
    pub open spec fn spec_len(size: int) -> int {
        if size >= 4 { size - 4 } else { 0 }
    }

    pub fn read(size: usize) -> (r: (Body, usize))
        ensures
            r.0.len == Self::spec_len(size as int),
            r.1 == 0,
    {
        let len = if size >= 4 { size - 4 } else { 0 };
        (Body { len }, Self::SIZE)
    }
}

} // verus!
