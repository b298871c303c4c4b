//! Plain integer 2D geometry: points, displacement vectors, and
//! axis-aligned rectangles.
//!
//! Coordinates are logical units with the origin at the top-left corner and
//! the y axis growing downward. The same point type doubles as a texture
//! coordinate, where the units are the caller's fixed-point subdivision of
//! the `[0, 1] x [0, 1]` texture square.

use vstd::prelude::*;

verus! {

/// A position on the rendering surface (or in texture space).
#[derive(Clone, Copy, Debug, PartialEq, Eq, Structural)]
pub struct Pos2 {
    pub x: i32,
    pub y: i32,
}

/// A displacement between two positions.
#[derive(Clone, Copy, Debug, PartialEq, Eq, Structural)]
pub struct Vec2 {
    pub x: i32,
    pub y: i32,
}

/// An axis-aligned rectangle given by its corner positions.
///
/// `min` is the left-top corner and `max` the right-bottom corner.
#[derive(Clone, Copy, Debug, PartialEq, Eq, Structural)]
pub struct Rect {
    pub min: Pos2,
    pub max: Pos2,
}

impl Pos2 {
    pub fn new(x: i32, y: i32) -> (p: Pos2)
        ensures
            p == (Pos2 { x, y }),
    {
        Pos2 { x, y }
    }
}

impl Vec2 {
    pub fn new(x: i32, y: i32) -> (v: Vec2)
        ensures
            v == (Vec2 { x, y }),
    {
        Vec2 { x, y }
    }
}

impl Rect {
    pub fn from_min_max(min: Pos2, max: Pos2) -> (r: Rect)
        ensures
            r == (Rect { min, max }),
    {
        Rect { min, max }
    }

    pub open spec fn spec_left_top(&self) -> Pos2 {
        self.min
    }

    pub open spec fn spec_right_top(&self) -> Pos2 {
        Pos2 { x: self.max.x, y: self.min.y }
    }

    pub open spec fn spec_left_bottom(&self) -> Pos2 {
        Pos2 { x: self.min.x, y: self.max.y }
    }

    pub open spec fn spec_right_bottom(&self) -> Pos2 {
        self.max
    }

    #[verifier::when_used_as_spec(spec_left_top)]
    pub fn left_top(&self) -> (p: Pos2)
        ensures
            p == self.spec_left_top(),
    {
        self.min
    }

    #[verifier::when_used_as_spec(spec_right_top)]
    pub fn right_top(&self) -> (p: Pos2)
        ensures
            p == self.spec_right_top(),
    {
        Pos2 { x: self.max.x, y: self.min.y }
    }

    #[verifier::when_used_as_spec(spec_left_bottom)]
    pub fn left_bottom(&self) -> (p: Pos2)
        ensures
            p == self.spec_left_bottom(),
    {
        Pos2 { x: self.min.x, y: self.max.y }
    }

    #[verifier::when_used_as_spec(spec_right_bottom)]
    pub fn right_bottom(&self) -> (p: Pos2)
        ensures
            p == self.spec_right_bottom(),
    {
        self.max
    }
}

} // verus!
