//! Two-component integer vectors for positions, sizes and movements.

use vstd::prelude::*;

verus! {

/// A position or a size in whole pixels.
#[derive(Clone, Copy, Debug, PartialEq, Eq, Structural)]
pub struct Vec2u {
    pub x: u32,
    pub y: u32,
}

/// A movement in whole pixels.
#[derive(Clone, Copy, Debug, PartialEq, Eq, Structural)]
pub struct Vec2i {
    pub x: i32,
    pub y: i32,
}

impl Vec2u {
    /// Each component of `self` divided by the same component of `rhs`,
    /// rounded down.
    pub open spec fn spec_per(self, rhs: Vec2u) -> Vec2u {
        Vec2u { x: self.x / rhs.x, y: self.y / rhs.y }
    }

    pub fn new(x: u32, y: u32) -> (v: Vec2u)
        ensures
            v == (Vec2u { x, y }),
    {
        Vec2u { x, y }
    }

    pub fn zero() -> (v: Vec2u)
        ensures
            v == (Vec2u { x: 0, y: 0 }),
    {
        Vec2u { x: 0, y: 0 }
    }

    /// The vector with `value` in both components.
    pub fn fill(value: u32) -> (v: Vec2u)
        ensures
            v == (Vec2u { x: value, y: value }),
    {
        Vec2u { x: value, y: value }
    }

    /// Component-wise division.
    pub fn per(self, rhs: Vec2u) -> (v: Vec2u)
        requires
            rhs.x != 0,
            rhs.y != 0,
        ensures
            v == self.spec_per(rhs),
    {
        Vec2u { x: self.x / rhs.x, y: self.y / rhs.y }
    }
}

impl Vec2i {
    /// The component-wise sum, as unbounded integers.
    pub open spec fn spec_plus(self, rhs: Vec2i) -> (int, int) {
        (self.x + rhs.x, self.y + rhs.y)
    }

    /// Whether the component-wise sum can be held in a `Vec2i`.
    pub open spec fn plus_fits(self, rhs: Vec2i) -> bool {
        &&& i32::MIN <= self.x + rhs.x <= i32::MAX
        &&& i32::MIN <= self.y + rhs.y <= i32::MAX
    }

    pub fn new(x: i32, y: i32) -> (v: Vec2i)
        ensures
            v == (Vec2i { x, y }),
    {
        Vec2i { x, y }
    }

    pub fn zero() -> (v: Vec2i)
        ensures
            v == (Vec2i { x: 0, y: 0 }),
    {
        Vec2i { x: 0, y: 0 }
    }

    /// Component-wise sum.
    pub fn plus(self, rhs: Vec2i) -> (v: Vec2i)
        requires
            self.plus_fits(rhs),
        ensures
            (v.x as int, v.y as int) == self.spec_plus(rhs),
    {
        Vec2i { x: self.x + rhs.x, y: self.y + rhs.y }
    }
}

} // verus!
