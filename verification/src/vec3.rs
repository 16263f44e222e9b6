//! A 3D vector and its associated functions and methods.

use vstd::prelude::*;

use crate::fits_i64;

verus! {

/// A 3D vector with elements x, y, and z.
#[derive(Clone, Copy, Debug, PartialEq, Eq, Structural)]
pub struct Vec3 {
    pub x: i64,
    pub y: i64,
    pub z: i64,
}

impl Vec3 {
    /// The components in index order: x, y, z.
    pub open spec fn to_seq(self) -> Seq<i64> {
        seq![self.x, self.y, self.z]
    }

    /// The vector whose components are the first three elements of `s`,
    /// in index order.
    pub open spec fn from_seq(s: Seq<i64>) -> Vec3
        recommends
            s.len() == 3,
    {
        Vec3 { x: s[0], y: s[1], z: s[2] }
    }

    /// True when every component lies in `[-max, max]`.
    pub open spec fn bounded(self, max: int) -> bool {
        &&& -max <= self.x <= max
        &&& -max <= self.y <= max
        &&& -max <= self.z <= max
    }

    /// Returns a new Vec3 at [0, 0, 0].
    pub fn new() -> (r: Vec3)
        ensures
            r == (Vec3 { x: 0i64, y: 0i64, z: 0i64 }),
    {
        Vec3 { x: 0, y: 0, z: 0 }
    }

    /// Returns a new Vec3 using the given values for x, y, and z.
    pub fn new_from_values(x: &i64, y: &i64, z: &i64) -> (r: Vec3)
        ensures
            r.x == *x,
            r.y == *y,
            r.z == *z,
    {
        Vec3 { x: *x, y: *y, z: *z }
    }

    /// Returns a new Vec3 using the 0, 1, and 2 indices of the given
    /// array, where [0] -> x, [1] -> y, and [2] -> z.
    pub fn new_from_array(input: &[i64; 3]) -> (r: Vec3)
        ensures
            r == Vec3::from_seq(input@),
    {
        Vec3 { x: input[0], y: input[1], z: input[2] }
    }

    /// Returns an array of the Vec3's x, y, and z values where x -> [0],
    /// y -> [1], and z -> [2].
    pub fn to_array(&self) -> (r: [i64; 3])
        ensures
            r@ == self.to_seq(),
    {
        let r: [i64; 3] = [self.x, self.y, self.z];
        proof {
            assert(r@ =~= self.to_seq());
        }
        r
    }

    /// Returns the cross product of 2 Vec3s as a Vec3, by the
    /// right-handed formula
    /// `(a.y*b.z - a.z*b.y, a.z*b.x - a.x*b.z, a.x*b.y - a.y*b.x)`.
    ///
    /// The cross product of 2 Vec3s is a Vec3 that is perpendicular to
    /// both input vectors.
    pub fn cross_product(&self, other: &Vec3) -> (r: Vec3)
        requires
            fits_i64(self.y * other.z),
            fits_i64(self.z * other.y),
            fits_i64(self.y * other.z - self.z * other.y),
            fits_i64(self.z * other.x),
            fits_i64(self.x * other.z),
            fits_i64(self.z * other.x - self.x * other.z),
            fits_i64(self.x * other.y),
            fits_i64(self.y * other.x),
            fits_i64(self.x * other.y - self.y * other.x),
        ensures
            r.x == self.y * other.z - self.z * other.y,
            r.y == self.z * other.x - self.x * other.z,
            r.z == self.x * other.y - self.y * other.x,
    {
        Vec3 {
            x: (self.y * other.z) - (self.z * other.y),
            y: (self.z * other.x) - (self.x * other.z),
            z: (self.x * other.y) - (self.y * other.x),
        }
    }

    /// Returns the Euclidean length of the Vec3, rounded down to the
    /// integer scalar: the greatest non-negative `r` with
    /// `r * r <= x*x + y*y + z*z`.  It is exact whenever the true
    /// length is an integer; in particular the length of the zero
    /// vector is 0, with no special case.
    pub fn length(&self) -> (r: i64)
        requires
            fits_i64(self.x * self.x),
            fits_i64(self.y * self.y),
            fits_i64(self.z * self.z),
            fits_i64(self.x * self.x + self.y * self.y),
            fits_i64(self.x * self.x + self.y * self.y + self.z * self.z),
        ensures
            0 <= r,
            r * r <= self.x * self.x + self.y * self.y + self.z * self.z,
            self.x * self.x + self.y * self.y + self.z * self.z < (r + 1) * (r + 1),
    {
        proof {
            assert(self.x * self.x >= 0) by (nonlinear_arith);
            assert(self.y * self.y >= 0) by (nonlinear_arith);
            assert(self.z * self.z >= 0) by (nonlinear_arith);
        }
        let s: i64 = (self.x * self.x) + (self.y * self.y) + (self.z * self.z);
        let r: u64 = crate::isqrt_u64(s as u64);
        r as i64
    }

    /// Adds one Vec3 to another Vec3 and returns a new Vec3.
    pub fn add(&self, other: &Vec3) -> (r: Vec3)
        requires
            fits_i64(self.x + other.x),
            fits_i64(self.y + other.y),
            fits_i64(self.z + other.z),
        ensures
            r.x == self.x + other.x,
            r.y == self.y + other.y,
            r.z == self.z + other.z,
    {
        Vec3 { x: self.x + other.x, y: self.y + other.y, z: self.z + other.z }
    }

    /// Adds one Vec3 to another Vec3 and replaces the receiver with the
    /// new Vec3.
    pub fn add_assign(&mut self, other: &Vec3)
        requires
            fits_i64(old(self).x + other.x),
            fits_i64(old(self).y + other.y),
            fits_i64(old(self).z + other.z),
        ensures
            final(self).x == old(self).x + other.x,
            final(self).y == old(self).y + other.y,
            final(self).z == old(self).z + other.z,
    {
        *self = Vec3 { x: self.x + other.x, y: self.y + other.y, z: self.z + other.z };
    }

    /// Subtracts one Vec3 from another Vec3 and returns a new Vec3.
    pub fn subtract(&self, other: &Vec3) -> (r: Vec3)
        requires
            fits_i64(self.x - other.x),
            fits_i64(self.y - other.y),
            fits_i64(self.z - other.z),
        ensures
            r.x == self.x - other.x,
            r.y == self.y - other.y,
            r.z == self.z - other.z,
    {
        Vec3 { x: self.x - other.x, y: self.y - other.y, z: self.z - other.z }
    }

    /// Subtracts one Vec3 from another Vec3 and replaces the receiver with
    /// the new Vec3.
    pub fn subtract_assign(&mut self, other: &Vec3)
        requires
            fits_i64(old(self).x - other.x),
            fits_i64(old(self).y - other.y),
            fits_i64(old(self).z - other.z),
        ensures
            final(self).x == old(self).x - other.x,
            final(self).y == old(self).y - other.y,
            final(self).z == old(self).z - other.z,
    {
        *self = Vec3 { x: self.x - other.x, y: self.y - other.y, z: self.z - other.z };
    }

    /// Negates each component, which in turn negates the Vec3.
    pub fn negate(&self) -> (r: Vec3)
        requires
            fits_i64(-self.x),
            fits_i64(-self.y),
            fits_i64(-self.z),
        ensures
            r.x == -self.x,
            r.y == -self.y,
            r.z == -self.z,
    {
        Vec3 { x: -self.x, y: -self.y, z: -self.z }
    }

    /// Multiplies a scalar value by a Vec3, component-wise, and returns a
    /// new Vec3.
    pub fn scale(&self, scalar: i64) -> (r: Vec3)
        requires
            fits_i64(scalar * self.x),
            fits_i64(scalar * self.y),
            fits_i64(scalar * self.z),
        ensures
            r.x == scalar * self.x,
            r.y == scalar * self.y,
            r.z == scalar * self.z,
    {
        Vec3 { x: scalar * self.x, y: scalar * self.y, z: scalar * self.z }
    }

    /// Returns the dot product of 2 Vec3s, which is a scalar.
    pub fn dot(&self, other: &Vec3) -> (r: i64)
        requires
            fits_i64(self.x * other.x),
            fits_i64(self.y * other.y),
            fits_i64(self.z * other.z),
            fits_i64(self.x * other.x + self.y * other.y),
            fits_i64(self.x * other.x + self.y * other.y + self.z * other.z),
        ensures
            r == self.x * other.x + self.y * other.y + self.z * other.z,
    {
        (self.x * other.x) + (self.y * other.y) + (self.z * other.z)
    }
}

impl Default for Vec3 {
    /// The zero vector, as `Vec3::new` returns it.
    fn default() -> (r: Vec3)
        ensures
            r == (Vec3 { x: 0i64, y: 0i64, z: 0i64 }),
    {
        Vec3::new()
    }
}

/// Converting a Vec3 to its array form and back yields the same vector:
/// the two conversions are mutual inverses.
pub proof fn lemma_vec3_array_round_trip(v: Vec3)
    ensures
        Vec3::from_seq(v.to_seq()) == v,
{
}

} // verus!
