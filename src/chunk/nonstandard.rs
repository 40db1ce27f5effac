//! Chunks outside the ILBM standard that some programs write.

use vstd::prelude::*;
use crate::bytes::{fits, has_bytes, spec_u16_at, u16_at};
use crate::error::LBMError;

verus! {

/// Horizontal and vertical resolution, "DPI ".
#[derive(Clone, Copy, Debug, PartialEq, Eq)]
pub struct DotsPerInch(pub (u16, u16));

impl DotsPerInch {
    pub const ID: u32 = 0x44504920;
    pub const SIZE: usize = 4;

    pub open spec fn spec_read(s: Seq<u8>, p: int) -> DotsPerInch {
        DotsPerInch((spec_u16_at(s, p), spec_u16_at(s, p + 2)))
    }

    pub fn read(data: &[u8], pos: usize) -> (r: Result<(DotsPerInch, usize), LBMError>)
        ensures
            r == (if fits(data@, pos as int, 4) {
                Ok((Self::spec_read(data@, pos as int), 4usize))
            } else {
                Err(LBMError::ShortRead)
            }),
    {
        if !has_bytes(data, pos, Self::SIZE) {
            return Err(LBMError::ShortRead);
        }
        Ok((DotsPerInch((u16_at(data, pos), u16_at(data, pos + 2))), Self::SIZE))
    }
}

} // verus!
