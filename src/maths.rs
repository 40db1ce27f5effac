//! Small fixed-size vectors and a 3x3 matrix, as stored in perspective chunks.

use vstd::prelude::*;

verus! {

#[derive(Clone, Copy, Debug, Default, PartialEq, Eq)]
pub struct Vec2<T> {
    pub x: T,
    pub y: T,
}

impl<T> Vec2<T> {
    pub fn new(x: T, y: T) -> (r: Self)
        ensures
            r == (Vec2 { x, y }),
    {
        Vec2 { x, y }
    }
}

#[derive(Clone, Copy, Debug, Default, PartialEq, Eq)]
pub struct Vec3<T> {
    pub x: T,
    pub y: T,
    pub z: T,
}

impl<T> Vec3<T> {
    pub fn new(x: T, y: T, z: T) -> (r: Self)
        ensures
            r == (Vec3 { x, y, z }),
    {
        Vec3 { x, y, z }
    }
}

pub type Vec3i = Vec3<i32>;

/// A 3x3 matrix, its nine cells in the order they are stored.
#[derive(Clone, Copy, Debug, Default, PartialEq, Eq)]
pub struct Mat3<T>(pub T, pub T, pub T, pub T, pub T, pub T, pub T, pub T, pub T);

} // verus!
