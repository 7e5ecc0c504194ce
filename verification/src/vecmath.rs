//! Two-dimensional vector algebra over fixed-point scalars.
//!
//! Components are counted in thousandths of a world unit (see [`crate::fixed`]).

use vstd::prelude::*;
use crate::fixed::{mul_milli, scale_by_milli, FIXED_MAX};

verus! {

/// A 2-D vector of fixed-point components.
#[derive(Clone, Copy, Debug, PartialEq, Eq, Structural)]
pub struct PhysVec {
    pub x: i64,
    pub y: i64,
}

/// Both components lie within the range the arithmetic routines accept.
pub open spec fn vec_in_range(v: PhysVec) -> bool {
    &&& -FIXED_MAX <= v.x <= FIXED_MAX
    &&& -FIXED_MAX <= v.y <= FIXED_MAX
}

impl PhysVec {
    pub fn new(x: i64, y: i64) -> (r: PhysVec)
        ensures
            r.x == x,
            r.y == y,
    {
        PhysVec { x, y }
    }

    /// Componentwise sum accumulated in place.
    pub fn add_vec(&mut self, other: &PhysVec)
        requires
            -FIXED_MAX <= old(self).x + other.x <= FIXED_MAX,
            -FIXED_MAX <= old(self).y + other.y <= FIXED_MAX,
        ensures
            final(self).x == old(self).x + other.x,
            final(self).y == old(self).y + other.y,
    {
        let nx: i128 = (self.x as i128) + (other.x as i128);
        let ny: i128 = (self.y as i128) + (other.y as i128);
        self.x = nx as i64;
        self.y = ny as i64;
    }

    /// Accumulates `v` scaled by the whole-number factor `t`: `self += v * t`.
    pub fn add_scaled_product(&mut self, v: &PhysVec, t: i64)
        requires
            -FIXED_MAX <= old(self).x + v.x * t <= FIXED_MAX,
            -FIXED_MAX <= old(self).y + v.y * t <= FIXED_MAX,
        ensures
            final(self).x == old(self).x + v.x * t,
            final(self).y == old(self).y + v.y * t,
    {
        let nx: i128 = (self.x as i128) + (v.x as i128) * (t as i128);
        let ny: i128 = (self.y as i128) + (v.y as i128) * (t as i128);
        self.x = nx as i64;
        self.y = ny as i64;
    }

    /// Scales both components by the thousandths factor `f`, truncating
    /// toward zero.
    pub fn dot_replace(&mut self, f: i64)
        requires
            0 <= f <= 1000,
            vec_in_range(*old(self)),
        ensures
            final(self).x == mul_milli(old(self).x as int, f as int),
            final(self).y == mul_milli(old(self).y as int, f as int),
            vec_in_range(*final(self)),
    {
        self.x = scale_by_milli(self.x, f);
        self.y = scale_by_milli(self.y, f);
    }

    /// Overwrites this vector with a copy of `other`.
    pub fn replace(&mut self, other: &PhysVec)
        ensures
            *final(self) == *other,
    {
        self.x = other.x;
        self.y = other.y;
    }

    /// The raw component pair.
    pub fn raw(&self) -> (r: (i64, i64))
        ensures
            r.0 == self.x,
            r.1 == self.y,
    {
        (self.x, self.y)
    }
}

} // verus!
