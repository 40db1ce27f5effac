//! The Commodore Graphicraft colour cycling chunk, "CCRT".

use vstd::prelude::*;
use crate::bytes::{fits, has_bytes, i16_at, i32_at, spec_i16_at, spec_i32_at, u8_at};
use crate::error::LBMError;

verus! {

/// Direction of a cycle: 0 none, 1 forward, -1 backward.
#[derive(Clone, Copy, Debug, PartialEq, Eq, Structural)]
pub struct Direction(pub i16);

impl Direction {
    pub const NONE: i16 = 0;
    pub const FORWARD: i16 = 1;
    pub const BACKWARD: i16 = -1;

    pub open spec fn spec_name(self) -> Option<&'static str> {
        if self.0 == Self::NONE {
            Some("None (disabled)")
        } else if self.0 == Self::FORWARD {
            Some("Forward")
        } else if self.0 == Self::BACKWARD {
            Some("Backward")
        } else {
            None
        }
    }

    /// The name of a known direction.
    pub fn name(&self) -> (r: Option<&'static str>)
        ensures
            r == self.spec_name(),
    {
        if self.0 == Self::NONE {
            Some("None (disabled)")
        } else if self.0 == Self::FORWARD {
            Some("Forward")
        } else if self.0 == Self::BACKWARD {
            Some("Backward")
        } else {
            None
        }
    }
}

#[derive(Clone, Copy, Debug, PartialEq, Eq)]
pub struct CycleTime {
    pub seconds: i32,
    pub microseconds: i32,
}

#[derive(Clone, Copy, Debug, PartialEq, Eq)]
pub struct CycleInfo {
    pub direction: Direction,
    pub start: u8,
    pub end: u8,
    pub time: CycleTime,
    pub pad: i16,
}

impl CycleInfo {
    pub const ID: u32 = 0x43435254;
    pub const SIZE: usize = 14;

    pub open spec fn spec_read(s: Seq<u8>, p: int) -> CycleInfo {
        CycleInfo {
            direction: Direction(spec_i16_at(s, p)),
            start: s[p + 2],
            end: s[p + 3],
            time: CycleTime { seconds: spec_i32_at(s, p + 4), microseconds: spec_i32_at(s, p + 8) },
            pad: spec_i16_at(s, p + 12),
        }
    }

    pub fn read(data: &[u8], pos: usize) -> (r: Result<(CycleInfo, usize), LBMError>)
        ensures
            r == (if fits(data@, pos as int, 14) {
                Ok((Self::spec_read(data@, pos as int), 14usize))
            } else {
                Err(LBMError::ShortRead)
            }),
    {
        if !has_bytes(data, pos, Self::SIZE) {
            return Err(LBMError::ShortRead);
        }
        let info = CycleInfo {
            direction: Direction(i16_at(data, pos)),
            start: u8_at(data, pos + 2),
            end: u8_at(data, pos + 3),
            time: CycleTime { seconds: i32_at(data, pos + 4), microseconds: i32_at(data, pos + 8) },
            pad: i16_at(data, pos + 12),
        };
        Ok((info, Self::SIZE))
    }
}

} // verus!
