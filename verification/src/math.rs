//! Small integer vector and rectangle types used for world coordinates,
//! velocities, collision footprints and collider rectangles.

use vstd::prelude::*;

verus! {

/// A signed 2D vector: world positions and velocities, in world units.
#[derive(Clone, Copy, Debug, PartialEq, Eq, Structural)]
pub struct Vec2i {
    pub x: i32,
    pub y: i32,
}

/// An unsigned 2D vector: collision footprints (width, height), in world units.
#[derive(Clone, Copy, Debug, PartialEq, Eq, Structural)]
pub struct Vec2u {
    pub x: u32,
    pub y: u32,
}

/// An axis-aligned rectangle anchored at its top-left corner.
#[derive(Clone, Copy, Debug, PartialEq, Eq, Structural)]
pub struct Rect {
    pub x: i32,
    pub y: i32,
    pub w: u32,
    pub h: u32,
}

impl Vec2i {
    /// The zero vector.
    pub fn zero() -> (v: Vec2i)
        ensures
            v == (Vec2i { x: 0, y: 0 }),
    {
        Vec2i { x: 0, y: 0 }
    }
}

} // verus!
