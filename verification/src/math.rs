//! Small integer vector types used for chunk coordinates, world-space block
//! positions and chunk-local block positions.

use vstd::prelude::*;

verus! {

/// A 2D integer vector. Used for chunk coordinates in the horizontal world
/// grid, where `x` indexes the world X axis and `y` indexes the world Z axis.
#[derive(Clone, Copy, Debug, PartialEq, Eq, Structural)]
pub struct Vec2i {
    pub x: i32,
    pub y: i32,
}

/// A 3D integer vector. Used for world-space block positions.
#[derive(Clone, Copy, Debug, PartialEq, Eq, Structural)]
pub struct Vec3i {
    pub x: i32,
    pub y: i32,
    pub z: i32,
}

/// A 3D vector of 16-bit integers. Used for chunk-local block positions.
#[derive(Clone, Copy, Debug, PartialEq, Eq, Structural)]
pub struct Vec3i16 {
    pub x: i16,
    pub y: i16,
    pub z: i16,
}

impl Vec2i {
    pub fn new(x: i32, y: i32) -> (r: Vec2i)
        ensures
            r == (Vec2i { x, y }),
    {
        Vec2i { x, y }
    }

    /// Component-wise sum.
    pub fn plus(self, other: Vec2i) -> (r: Vec2i)
        requires
            i32::MIN <= self.x + other.x <= i32::MAX,
            i32::MIN <= self.y + other.y <= i32::MAX,
        ensures
            r.x == self.x + other.x,
            r.y == self.y + other.y,
    {
        Vec2i { x: self.x + other.x, y: self.y + other.y }
    }
}

impl Vec3i {
    pub fn new(x: i32, y: i32, z: i32) -> (r: Vec3i)
        ensures
            r == (Vec3i { x, y, z }),
    {
        Vec3i { x, y, z }
    }

    /// Component-wise sum.
    pub fn plus(self, other: Vec3i) -> (r: Vec3i)
        requires
            i32::MIN <= self.x + other.x <= i32::MAX,
            i32::MIN <= self.y + other.y <= i32::MAX,
            i32::MIN <= self.z + other.z <= i32::MAX,
        ensures
            r.x == self.x + other.x,
            r.y == self.y + other.y,
            r.z == self.z + other.z,
    {
        Vec3i { x: self.x + other.x, y: self.y + other.y, z: self.z + other.z }
    }
}

impl Vec3i16 {
    pub fn new(x: i16, y: i16, z: i16) -> (r: Vec3i16)
        ensures
            r == (Vec3i16 { x, y, z }),
    {
        Vec3i16 { x, y, z }
    }
}

/// Floor division of a 32-bit integer by 16, i.e. Euclidean division by a
/// positive divisor. Maps a world-space x or z coordinate to its chunk
/// coordinate.
pub fn div_floor_16(a: i32) -> (r: i32)
    ensures
        r == a as int / 16,
{
    if a >= 0 {
        a / 16
    } else {
        ((a + 1) / 16) - 1
    }
}

/// Euclidean remainder of a 32-bit integer modulo 16; always in `0..16`.
/// Maps a world-space x or z coordinate to a chunk-local coordinate.
pub fn rem_euclid_16(a: i32) -> (r: i32)
    ensures
        r == a as int % 16,
        0 <= r < 16,
{
    if a >= 0 {
        a % 16
    } else {
        let m = (a + 1) % 16;
        m + 15
    }
}

} // verus!
