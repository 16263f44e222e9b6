//! A 4D vector and its associated functions and methods.

use vstd::prelude::*;

use crate::fits_i64;

verus! {

/// A 4D vector with elements x, y, z, and w.
///
/// A Vec4 has no cross product: the operation is geometrically undefined
/// at this arity.
#[derive(Clone, Copy, Debug, PartialEq, Eq, Structural)]
pub struct Vec4 {
    pub x: i64,
    pub y: i64,
    pub z: i64,
    pub w: i64,
}

impl Vec4 {
    /// The components in index order: x, y, z, w.
    pub open spec fn to_seq(self) -> Seq<i64> {
        seq![self.x, self.y, self.z, self.w]
    }

    /// The vector whose components are the first four elements of `s`,
    /// in index order.
    pub open spec fn from_seq(s: Seq<i64>) -> Vec4
        recommends
            s.len() == 4,
    {
        Vec4 { x: s[0], y: s[1], z: s[2], w: s[3] }
    }

    /// True when every component lies in `[-max, max]`.
    pub open spec fn bounded(self, max: int) -> bool {
        &&& -max <= self.x <= max
        &&& -max <= self.y <= max
        &&& -max <= self.z <= max
        &&& -max <= self.w <= max
    }

    /// Returns a new Vec4 at [0, 0, 0, 0].
    pub fn new() -> (r: Vec4)
        ensures
            r == (Vec4 { x: 0i64, y: 0i64, z: 0i64, w: 0i64 }),
    {
        Vec4 { x: 0, y: 0, z: 0, w: 0 }
    }

    /// Returns a new Vec4 using the given values for x, y, z, and w.
    pub fn new_from_values(x: &i64, y: &i64, z: &i64, w: &i64) -> (r: Vec4)
        ensures
            r.x == *x,
            r.y == *y,
            r.z == *z,
            r.w == *w,
    {
        Vec4 { x: *x, y: *y, z: *z, w: *w }
    }

    /// Returns a new Vec4 using the 0, 1, 2, and 3 indices of the given
    /// array, where [0] -> x, [1] -> y, [2] -> z, and [3] -> w.
    pub fn new_from_array(input: &[i64; 4]) -> (r: Vec4)
        ensures
            r == Vec4::from_seq(input@),
    {
        Vec4 { x: input[0], y: input[1], z: input[2], w: input[3] }
    }

    /// Returns an array of the Vec4's x, y, z, and w values where x -> [0],
    /// y -> [1], z -> [2], and w -> [3].
    pub fn to_array(&self) -> (r: [i64; 4])
        ensures
            r@ == self.to_seq(),
    {
        let r: [i64; 4] = [self.x, self.y, self.z, self.w];
        proof {
            assert(r@ =~= self.to_seq());
        }
        r
    }

    /// Adds one Vec4 to another Vec4 and returns a new Vec4.
    pub fn add(&self, other: &Vec4) -> (r: Vec4)
        requires
            fits_i64(self.x + other.x),
            fits_i64(self.y + other.y),
            fits_i64(self.z + other.z),
            fits_i64(self.w + other.w),
        ensures
            r.x == self.x + other.x,
            r.y == self.y + other.y,
            r.z == self.z + other.z,
            r.w == self.w + other.w,
    {
        Vec4 {
            x: self.x + other.x,
            y: self.y + other.y,
            z: self.z + other.z,
            w: self.w + other.w,
        }
    }

    /// Adds one Vec4 to another Vec4 and replaces the receiver with the
    /// new Vec4.
    pub fn add_assign(&mut self, other: &Vec4)
        requires
            fits_i64(old(self).x + other.x),
            fits_i64(old(self).y + other.y),
            fits_i64(old(self).z + other.z),
            fits_i64(old(self).w + other.w),
        ensures
            final(self).x == old(self).x + other.x,
            final(self).y == old(self).y + other.y,
            final(self).z == old(self).z + other.z,
            final(self).w == old(self).w + other.w,
    {
        *self = Vec4 {
            x: self.x + other.x,
            y: self.y + other.y,
            z: self.z + other.z,
            w: self.w + other.w,
        };
    }

    /// Subtracts one Vec4 from another Vec4 and returns a new Vec4.
    pub fn subtract(&self, other: &Vec4) -> (r: Vec4)
        requires
            fits_i64(self.x - other.x),
            fits_i64(self.y - other.y),
            fits_i64(self.z - other.z),
            fits_i64(self.w - other.w),
        ensures
            r.x == self.x - other.x,
            r.y == self.y - other.y,
            r.z == self.z - other.z,
            r.w == self.w - other.w,
    {
        Vec4 {
            x: self.x - other.x,
            y: self.y - other.y,
            z: self.z - other.z,
            w: self.w - other.w,
        }
    }

    /// Subtracts one Vec4 from another Vec4 and replaces the receiver with
    /// the new Vec4.
    pub fn subtract_assign(&mut self, other: &Vec4)
        requires
            fits_i64(old(self).x - other.x),
            fits_i64(old(self).y - other.y),
            fits_i64(old(self).z - other.z),
            fits_i64(old(self).w - other.w),
        ensures
            final(self).x == old(self).x - other.x,
            final(self).y == old(self).y - other.y,
            final(self).z == old(self).z - other.z,
            final(self).w == old(self).w - other.w,
    {
        *self = Vec4 {
            x: self.x - other.x,
            y: self.y - other.y,
            z: self.z - other.z,
            w: self.w - other.w,
        };
    }

    /// Negates each component, which in turn negates the Vec4.
    pub fn negate(&self) -> (r: Vec4)
        requires
            fits_i64(-self.x),
            fits_i64(-self.y),
            fits_i64(-self.z),
            fits_i64(-self.w),
        ensures
            r.x == -self.x,
            r.y == -self.y,
            r.z == -self.z,
            r.w == -self.w,
    {
        Vec4 { x: -self.x, y: -self.y, z: -self.z, w: -self.w }
    }

    /// Multiplies a scalar value by a Vec4, component-wise, and returns a
    /// new Vec4.
    pub fn scale(&self, scalar: i64) -> (r: Vec4)
        requires
            fits_i64(scalar * self.x),
            fits_i64(scalar * self.y),
            fits_i64(scalar * self.z),
            fits_i64(scalar * self.w),
        ensures
            r.x == scalar * self.x,
            r.y == scalar * self.y,
            r.z == scalar * self.z,
            r.w == scalar * self.w,
    {
        Vec4 {
            x: scalar * self.x,
            y: scalar * self.y,
            z: scalar * self.z,
            w: scalar * self.w,
        }
    }

    /// Returns the dot product of 2 Vec4s, which is a scalar.
    pub fn dot(&self, other: &Vec4) -> (r: i64)
        requires
            fits_i64(self.x * other.x),
            fits_i64(self.y * other.y),
            fits_i64(self.z * other.z),
            fits_i64(self.w * other.w),
            fits_i64(self.x * other.x + self.y * other.y),
            fits_i64(self.x * other.x + self.y * other.y + self.z * other.z),
            fits_i64(
                self.x * other.x + self.y * other.y + self.z * other.z + self.w * other.w,
            ),
        ensures
            r == self.x * other.x + self.y * other.y + self.z * other.z + self.w * other.w,
    {
        (self.x * other.x) + (self.y * other.y) + (self.z * other.z) + (self.w * other.w)
    }
}

impl Default for Vec4 {
    /// The zero vector, as `Vec4::new` returns it.
    fn default() -> (r: Vec4)
        ensures
            r == (Vec4 { x: 0i64, y: 0i64, z: 0i64, w: 0i64 }),
    {
        Vec4::new()
    }
}

/// Converting a Vec4 to its array form and back yields the same vector:
/// the two conversions are mutual inverses.
pub proof fn lemma_vec4_array_round_trip(v: Vec4)
    ensures
        Vec4::from_seq(v.to_seq()) == v,
{
}

} // verus!
