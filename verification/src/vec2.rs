//! A 2D vector and its associated functions and methods.

use vstd::prelude::*;

use crate::fits_i64;
use crate::vec3::Vec3;

verus! {

/// A 2D vector with elements x and y.
#[derive(Clone, Copy, Debug, PartialEq, Eq, Structural)]
pub struct Vec2 {
    pub x: i64,
    pub y: i64,
}

impl Vec2 {
    /// The components in index order: x, y.
    pub open spec fn to_seq(self) -> Seq<i64> {
        seq![self.x, self.y]
    }

    /// The vector whose components are the first two elements of `s`,
    /// in index order.
    pub open spec fn from_seq(s: Seq<i64>) -> Vec2
        recommends
            s.len() == 2,
    {
        Vec2 { x: s[0], y: s[1] }
    }

    /// True when every component lies in `[-max, max]`.
    pub open spec fn bounded(self, max: int) -> bool {
        &&& -max <= self.x <= max
        &&& -max <= self.y <= max
    }

    /// Returns a new Vec2 at [0, 0].
    pub fn new() -> (r: Vec2)
        ensures
            r == (Vec2 { x: 0i64, y: 0i64 }),
    {
        Vec2 { x: 0, y: 0 }
    }

    /// Returns a new Vec2 using the given values for x and y.
    pub fn new_from_values(x: &i64, y: &i64) -> (r: Vec2)
        ensures
            r.x == *x,
            r.y == *y,
    {
        Vec2 { x: *x, y: *y }
    }

    /// Returns a new Vec2 using the 0 and 1 indices of the given array,
    /// where [0] -> x, and [1] -> y.
    pub fn new_from_array(input: &[i64; 2]) -> (r: Vec2)
        ensures
            r == Vec2::from_seq(input@),
    {
        Vec2 { x: input[0], y: input[1] }
    }

    /// Returns an array of the Vec2's x and y values where x -> [0],
    /// y -> [1].
    pub fn to_array(&self) -> (r: [i64; 2])
        ensures
            r@ == self.to_seq(),
    {
        let r: [i64; 2] = [self.x, self.y];
        proof {
            assert(r@ =~= self.to_seq());
        }
        r
    }

    /// Returns the cross product of 2 Vec2s as if they were Vec3s with a
    /// z component of 0.
    ///
    /// Two vectors cannot be cross-multiplied in the plane, but promoted
    /// to 3-space with z = 0 they can, which is why the result is a Vec3.
    /// The x and y components of that result multiply the two zero
    /// z components, so they are written out as the constant 0 rather
    /// than computed from the general formula.
    pub fn cross_product(&self, other: &Vec2) -> (r: Vec3)
        requires
            fits_i64(self.x * other.y),
            fits_i64(self.y * other.x),
            fits_i64(self.x * other.y - self.y * other.x),
        ensures
            r.x == 0,
            r.y == 0,
            r.z == self.x * other.y - self.y * other.x,
    {
        Vec3 { x: 0, y: 0, z: (self.x * other.y) - (self.y * other.x) }
    }

    /// Returns the Euclidean length of the Vec2, rounded down to the
    /// integer scalar: the greatest non-negative `r` with
    /// `r * r <= x*x + y*y`.  It is exact whenever the true length is
    /// an integer; in particular the length of the zero vector is 0,
    /// with no special case.
    pub fn length(&self) -> (r: i64)
        requires
            fits_i64(self.x * self.x),
            fits_i64(self.y * self.y),
            fits_i64(self.x * self.x + self.y * self.y),
        ensures
            0 <= r,
            r * r <= self.x * self.x + self.y * self.y,
            self.x * self.x + self.y * self.y < (r + 1) * (r + 1),
    {
        proof {
            assert(self.x * self.x >= 0) by (nonlinear_arith);
            assert(self.y * self.y >= 0) by (nonlinear_arith);
        }
        let s: i64 = (self.x * self.x) + (self.y * self.y);
        let r: u64 = crate::isqrt_u64(s as u64);
        r as i64
    }

    /// Adds one Vec2 to another Vec2 and returns a new Vec2.
    pub fn add(&self, other: &Vec2) -> (r: Vec2)
        requires
            fits_i64(self.x + other.x),
            fits_i64(self.y + other.y),
        ensures
            r.x == self.x + other.x,
            r.y == self.y + other.y,
    {
        Vec2 { x: self.x + other.x, y: self.y + other.y }
    }

    /// Adds one Vec2 to another Vec2 and replaces the receiver with the
    /// new Vec2.
    pub fn add_assign(&mut self, other: &Vec2)
        requires
            fits_i64(old(self).x + other.x),
            fits_i64(old(self).y + other.y),
        ensures
            final(self).x == old(self).x + other.x,
            final(self).y == old(self).y + other.y,
    {
        *self = Vec2 { x: self.x + other.x, y: self.y + other.y };
    }

    /// Subtracts one Vec2 from another Vec2 and returns a new Vec2.
    pub fn subtract(&self, other: &Vec2) -> (r: Vec2)
        requires
            fits_i64(self.x - other.x),
            fits_i64(self.y - other.y),
        ensures
            r.x == self.x - other.x,
            r.y == self.y - other.y,
    {
        Vec2 { x: self.x - other.x, y: self.y - other.y }
    }

    /// Subtracts one Vec2 from another Vec2 and replaces the receiver
    /// with the new Vec2.
    pub fn subtract_assign(&mut self, other: &Vec2)
        requires
            fits_i64(old(self).x - other.x),
            fits_i64(old(self).y - other.y),
        ensures
            final(self).x == old(self).x - other.x,
            final(self).y == old(self).y - other.y,
    {
        *self = Vec2 { x: self.x - other.x, y: self.y - other.y };
    }

    /// Negates each component, which in turn negates the Vec2.
    pub fn negate(&self) -> (r: Vec2)
        requires
            fits_i64(-self.x),
            fits_i64(-self.y),
        ensures
            r.x == -self.x,
            r.y == -self.y,
    {
        Vec2 { x: -self.x, y: -self.y }
    }

    /// Multiplies a scalar value by a Vec2, component-wise, and returns a
    /// new Vec2.
    pub fn scale(&self, scalar: i64) -> (r: Vec2)
        requires
            fits_i64(scalar * self.x),
            fits_i64(scalar * self.y),
        ensures
            r.x == scalar * self.x,
            r.y == scalar * self.y,
    {
        Vec2 { x: scalar * self.x, y: scalar * self.y }
    }

    /// Returns the dot product of 2 Vec2s, which is a scalar.
    pub fn dot(&self, other: &Vec2) -> (r: i64)
        requires
            fits_i64(self.x * other.x),
            fits_i64(self.y * other.y),
            fits_i64(self.x * other.x + self.y * other.y),
        ensures
            r == self.x * other.x + self.y * other.y,
    {
        (self.x * other.x) + (self.y * other.y)
    }
}

impl Default for Vec2 {
    /// The zero vector, as `Vec2::new` returns it.
    fn default() -> (r: Vec2)
        ensures
            r == (Vec2 { x: 0i64, y: 0i64 }),
    {
        Vec2::new()
    }
}

/// Converting a Vec2 to its array form and back yields the same vector:
/// the two conversions are mutual inverses.
pub proof fn lemma_vec2_array_round_trip(v: Vec2)
    ensures
        Vec2::from_seq(v.to_seq()) == v,
{
}

} // verus!
