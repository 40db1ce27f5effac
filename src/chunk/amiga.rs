//! The Amiga display mode chunk, "CAMG".

use vstd::prelude::*;
use crate::bytes::{fits, has_bytes, spec_u32_at, u32_at};
use crate::error::LBMError;
use crate::flags::AmigaViewportFlags;

verus! {

#[derive(Clone, Copy, Debug, PartialEq, Eq)]
pub struct CommodoreAmiga {
    pub viewport: AmigaViewportFlags,
}

impl CommodoreAmiga {
    pub const ID: u32 = 0x43414d47;
    pub const SIZE: usize = 4;

    pub open spec fn spec_read(s: Seq<u8>, p: int) -> CommodoreAmiga {
        CommodoreAmiga { viewport: AmigaViewportFlags(spec_u32_at(s, p)) }
    }

    pub fn read(data: &[u8], pos: usize) -> (r: Result<(CommodoreAmiga, usize), LBMError>)
        ensures
            r == (if fits(data@, pos as int, 4) {
                Ok((Self::spec_read(data@, pos as int), 4usize))
            } else {
                Err(LBMError::ShortRead)
            }),
    {
        if !has_bytes(data, pos, Self::SIZE) {
            return Err(LBMError::ShortRead);
        }
        Ok((CommodoreAmiga { viewport: AmigaViewportFlags(u32_at(data, pos)) }, Self::SIZE))
    }
}

} // verus!
