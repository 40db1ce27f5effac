//! Chunks that Deluxe Paint writes outside the ILBM standard.

use vstd::prelude::*;
use crate::bytes::{fits, has_bytes, i16_at, i32_at, spec_i16_at, spec_i32_at, spec_u16_at, u16_at};
use crate::error::LBMError;
use crate::maths::{Mat3, Vec2, Vec3, Vec3i};

verus! {

/// Deluxe Paint private state, "DPPS": its contents are not decoded.
#[derive(Clone, Copy, Debug, PartialEq, Eq)]
pub struct DeluxePaintPrivateState;

impl DeluxePaintPrivateState {
    pub const ID: u32 = 0x44505053;
    pub const SIZE: usize = 0;
}

/// Deluxe Paint extended private state, "DPXT": its contents are not decoded.
#[derive(Clone, Copy, Debug, PartialEq, Eq)]
pub struct DeluxePaintPrivateExtended;

impl DeluxePaintPrivateExtended {
    pub const ID: u32 = 0x44505854;
    pub const SIZE: usize = 0;
}

/// How rotation angles are applied: 0 Euler angles, 1 incremental.
#[derive(Clone, Copy, Debug, PartialEq, Eq, Structural)]
pub struct RotationType(pub i16);

impl RotationType {
    pub const EULER: i16 = 0;
    pub const INCR: i16 = 1;

    pub open spec fn spec_name(self) -> Option<&'static str> {
        if self.0 == Self::EULER {
            Some("ROT_EULER")
        } else if self.0 == Self::INCR {
            Some("ROT_INCR")
        } else {
            None
        }
    }

    /// The name of a known rotation type.
    pub fn name(&self) -> (r: Option<&'static str>)
        ensures
            r == self.spec_name(),
    {
        if self.0 == Self::EULER {
            Some("ROT_EULER")
        } else if self.0 == Self::INCR {
            Some("ROT_INCR")
        } else {
            None
        }
    }
}

impl Default for RotationType {
    fn default() -> (r: RotationType)
        ensures
            r == RotationType(RotationType::EULER),
    {
        RotationType(RotationType::EULER)
    }
}

/// Perspective settings of Deluxe Paint, "DPPV".
#[derive(Clone, Copy, Debug, PartialEq, Eq)]
pub struct DeluxePaintPerspective {
    /// Rotation type.
    pub rot_type: RotationType,
    /// Rotation angles, in degrees.
    pub angle: Vec3<i16>,
    /// Perspective depth.
    pub persp_depth: i32,
    /// Centre of perspective, relative to the backing bitmap in virtual coordinates.
    pub uv_centre: Vec2<i16>,
    /// Which coordinate is fixed.
    pub fixed_coord: i16,
    /// Large angle stepping amount.
    pub angle_step: i16,
    /// Grid spacing.
    pub grid: Vec3i,
    /// Where the grid goes on reset.
    pub grid_reset: Vec3i,
    /// Brush centre when the grid was last on.
    pub grid_brush_centre: Vec3i,
    /// Brush centre at the last click, rotation or motion along the fixed axis.
    pub perm_brush_centre: Vec3i,
    /// Rotation matrix.
    pub matrix: Mat3<i32>,
}

pub open spec fn spec_vec3i_at(s: Seq<u8>, p: int) -> Vec3i {
    Vec3 { x: spec_i32_at(s, p), y: spec_i32_at(s, p + 4), z: spec_i32_at(s, p + 8) }
}

fn vec3i_at(data: &[u8], pos: usize) -> (r: Vec3i)
    requires
        fits(data@, pos as int, 12),
    ensures
        r == spec_vec3i_at(data@, pos as int),
{
    proof {
        assert(pos + 12 <= data.len());
    }
    Vec3::new(i32_at(data, pos), i32_at(data, pos + 4), i32_at(data, pos + 8))
}

impl DeluxePaintPerspective {
    pub const ID: u32 = 0x44505056;
    pub const SIZE: usize = 104;

    pub open spec fn spec_read(s: Seq<u8>, p: int) -> DeluxePaintPerspective {
        DeluxePaintPerspective {
            rot_type: RotationType(spec_i16_at(s, p)),
            angle: Vec3 { x: spec_i16_at(s, p + 2), y: spec_i16_at(s, p + 4), z: spec_i16_at(s, p + 6) },
            persp_depth: spec_i32_at(s, p + 8),
            uv_centre: Vec2 { x: spec_i16_at(s, p + 12), y: spec_i16_at(s, p + 14) },
            fixed_coord: spec_i16_at(s, p + 16),
            angle_step: spec_i16_at(s, p + 18),
            grid: spec_vec3i_at(s, p + 20),
            grid_reset: spec_vec3i_at(s, p + 32),
            grid_brush_centre: spec_vec3i_at(s, p + 44),
            perm_brush_centre: spec_vec3i_at(s, p + 56),
            matrix: Mat3(
                spec_i32_at(s, p + 68), spec_i32_at(s, p + 72), spec_i32_at(s, p + 76),
                spec_i32_at(s, p + 80), spec_i32_at(s, p + 84), spec_i32_at(s, p + 88),
                spec_i32_at(s, p + 92), spec_i32_at(s, p + 96), spec_i32_at(s, p + 100),
            ),
        }
    }

    pub fn read(data: &[u8], pos: usize) -> (r: Result<(DeluxePaintPerspective, usize), LBMError>)
        ensures
            r == (if fits(data@, pos as int, 104) {
                Ok((Self::spec_read(data@, pos as int), 104usize))
            } else {
                Err(LBMError::ShortRead)
            }),
    {
        if !has_bytes(data, pos, Self::SIZE) {
            return Err(LBMError::ShortRead);
        }
        let matrix = Mat3(
            i32_at(data, pos + 68), i32_at(data, pos + 72), i32_at(data, pos + 76),
            i32_at(data, pos + 80), i32_at(data, pos + 84), i32_at(data, pos + 88),
            i32_at(data, pos + 92), i32_at(data, pos + 96), i32_at(data, pos + 100),
        );
        let persp = DeluxePaintPerspective {
            rot_type: RotationType(i16_at(data, pos)),
            angle: Vec3::new(i16_at(data, pos + 2), i16_at(data, pos + 4), i16_at(data, pos + 6)),
            persp_depth: i32_at(data, pos + 8),
            uv_centre: Vec2::new(i16_at(data, pos + 12), i16_at(data, pos + 14)),
            fixed_coord: i16_at(data, pos + 16),
            angle_step: i16_at(data, pos + 18),
            grid: vec3i_at(data, pos + 20),
            grid_reset: vec3i_at(data, pos + 32),
            grid_brush_centre: vec3i_at(data, pos + 44),
            perm_brush_centre: vec3i_at(data, pos + 56),
            matrix,
        };
        Ok((persp, Self::SIZE))
    }
}

/// The thumbnail that Deluxe Paint II for MS-DOS embeds, "TINY".
#[derive(Clone, Copy, Debug, PartialEq, Eq)]
pub struct DeluxePaintThumbnail {
    pub size: (u16, u16),
    /// Length of the thumbnail's pixel data.
    pub len: usize,
}

impl DeluxePaintThumbnail {
    pub const ID: u32 = 0x54494e59;
    pub const SIZE: usize = 4;

    pub open spec fn spec_read(s: Seq<u8>, p: int, size: int) -> DeluxePaintThumbnail {
        DeluxePaintThumbnail {
            size: (spec_u16_at(s, p), spec_u16_at(s, p + 2)),
            len: (size - 4) as usize,
        }
    }

    pub fn read(data: &[u8], pos: usize, size: usize) -> (r: Result<(DeluxePaintThumbnail, usize), LBMError>)
        requires
            size >= 4,
        ensures
            r == (if fits(data@, pos as int, 4) {
                Ok((Self::spec_read(data@, pos as int, size as int), 4usize))
            } else {
                Err(LBMError::ShortRead)
            }),
    {
        if !has_bytes(data, pos, Self::SIZE) {
            return Err(LBMError::ShortRead);
        }
        let thumb = DeluxePaintThumbnail { size: (u16_at(data, pos), u16_at(data, pos + 2)), len: size - 4 };
        Ok((thumb, Self::SIZE))
    }
}

} // verus!
