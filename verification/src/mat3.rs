//! A 3x3 matrix and its associated functions and methods.

use vstd::prelude::*;

use crate::fits_i64;
use crate::lemma_mul_in_bounds;
use crate::vec3::Vec3;

verus! {

/// Largest element magnitude the Mat3 multiplication routines admit.
///
/// With every element in `[-2^30, 2^30]`, each product of two elements
/// stays within `2^60` and each row-by-column sum within `3 * 2^60`, so
/// every intermediate of those routines fits an `i64`.
pub const MAT3_MUL_ENTRY_MAX: i64 = 0x4000_0000;

/// Largest element magnitude the Mat3 determinant routine admits.
///
/// With every element in `[-2^19, 2^19]`, each 2x2 minor stays within
/// `2 * 2^38`, each first-row coefficient times its minor within `2^58`,
/// and the three-term sum within `3 * 2^58`, so every intermediate of
/// the determinant fits an `i64`.
pub const MAT3_DET_ENTRY_MAX: i64 = 0x8_0000;

/// A 3x3 Matrix with elements arranged in row-major order.
///
/// A Mat3 is laid out as follows:
///
/// ```plaintext
///     [ a  b  c ]
/// A = [ d  e  f ]
///     [ g  h  i ]
/// ```
///
/// The row-major letter assignment (a = row 0 col 0, b = row 0 col 1, ...)
/// is part of the type's contract: the array conversions depend on it.
#[derive(Clone, Copy, Debug, PartialEq, Eq, Structural)]
pub struct Mat3 {
    pub a: i64,
    pub b: i64,
    pub c: i64,
    pub d: i64,
    pub e: i64,
    pub f: i64,
    pub g: i64,
    pub h: i64,
    pub i: i64,
}

/// The mathematical-integer value of a Mat3: the same nine elements,
/// free of any machine range.  The algebraic laws of the 3x3 operations
/// are stated and proved over this model.
pub ghost struct Mat3Model {
    pub a: int,
    pub b: int,
    pub c: int,
    pub d: int,
    pub e: int,
    pub f: int,
    pub g: int,
    pub h: int,
    pub i: int,
}

impl Mat3Model {
    /// The identity matrix: 1 on the row-major diagonal, 0 elsewhere.
    pub open spec fn identity() -> Mat3Model {
        Mat3Model { a: 1, b: 0, c: 0, d: 0, e: 1, f: 0, g: 0, h: 0, i: 1 }
    }

    /// Row-by-column composition:
    /// `result[r][c] = sum over k of self[r][k] * other[k][c]`.
    pub open spec fn multiply(self, other: Mat3Model) -> Mat3Model {
        Mat3Model {
            a: self.a * other.a + self.b * other.d + self.c * other.g,
            b: self.a * other.b + self.b * other.e + self.c * other.h,
            c: self.a * other.c + self.b * other.f + self.c * other.i,
            d: self.d * other.a + self.e * other.d + self.f * other.g,
            e: self.d * other.b + self.e * other.e + self.f * other.h,
            f: self.d * other.c + self.e * other.f + self.f * other.i,
            g: self.g * other.a + self.h * other.d + self.i * other.g,
            h: self.g * other.b + self.h * other.e + self.i * other.h,
            i: self.g * other.c + self.h * other.f + self.i * other.i,
        }
    }

    /// The 3x3 determinant as computed: cofactor expansion along the
    /// first row, each 2x2 minor evaluated by the base identity, with
    /// the cofactor sign folded into the second minor's terms.
    pub open spec fn determinant(self) -> int {
        self.a * (self.e * self.i - self.f * self.h)
            + self.b * (self.f * self.g - self.d * self.i)
            + self.c * (self.d * self.h - self.e * self.g)
    }

    /// The brute-force reference determinant: the full six-term
    /// permutation expansion with the standard alternating signs.
    pub open spec fn determinant_expanded(self) -> int {
        self.a * self.e * self.i - self.a * self.f * self.h
            - self.b * self.d * self.i + self.b * self.f * self.g
            + self.c * self.d * self.h - self.c * self.e * self.g
    }
}

impl View for Mat3 {
    type V = Mat3Model;

    open spec fn view(&self) -> Mat3Model {
        Mat3Model {
            a: self.a as int,
            b: self.b as int,
            c: self.c as int,
            d: self.d as int,
            e: self.e as int,
            f: self.f as int,
            g: self.g as int,
            h: self.h as int,
            i: self.i as int,
        }
    }
}

impl Mat3 {
    /// The elements in row-major order.
    pub open spec fn to_row_seq(self) -> Seq<i64> {
        seq![self.a, self.b, self.c, self.d, self.e, self.f, self.g, self.h, self.i]
    }

    /// The elements in column-major order.
    pub open spec fn to_col_seq(self) -> Seq<i64> {
        seq![self.a, self.d, self.g, self.b, self.e, self.h, self.c, self.f, self.i]
    }

    /// The matrix whose row-major elements are the first nine elements
    /// of `s`.
    pub open spec fn from_row_seq(s: Seq<i64>) -> Mat3
        recommends
            s.len() == 9,
    {
        Mat3 {
            a: s[0], b: s[1], c: s[2],
            d: s[3], e: s[4], f: s[5],
            g: s[6], h: s[7], i: s[8],
        }
    }

    /// The matrix whose column-major elements are the first nine elements
    /// of `s`: element i of the input lands at the transposed row-major
    /// field.
    pub open spec fn from_col_seq(s: Seq<i64>) -> Mat3
        recommends
            s.len() == 9,
    {
        Mat3 {
            a: s[0], b: s[3], c: s[6],
            d: s[1], e: s[4], f: s[7],
            g: s[2], h: s[5], i: s[8],
        }
    }

    /// The transpose: element (r, c) swapped with element (c, r) for all
    /// off-diagonal pairs, the diagonal unchanged.
    pub open spec fn transposed(self) -> Mat3 {
        Mat3 {
            a: self.a, b: self.d, c: self.g,
            d: self.b, e: self.e, f: self.h,
            g: self.c, h: self.f, i: self.i,
        }
    }

    /// True when every element lies in `[-max, max]`.
    pub open spec fn bounded(self, max: int) -> bool {
        &&& -max <= self.a <= max
        &&& -max <= self.b <= max
        &&& -max <= self.c <= max
        &&& -max <= self.d <= max
        &&& -max <= self.e <= max
        &&& -max <= self.f <= max
        &&& -max <= self.g <= max
        &&& -max <= self.h <= max
        &&& -max <= self.i <= max
    }

    /// Returns a new Mat3 with all elements set to 0.
    pub fn new() -> (r: Mat3)
        ensures
            r == (Mat3 {
                a: 0i64, b: 0i64, c: 0i64,
                d: 0i64, e: 0i64, f: 0i64,
                g: 0i64, h: 0i64, i: 0i64,
            }),
    {
        Mat3 { a: 0, b: 0, c: 0, d: 0, e: 0, f: 0, g: 0, h: 0, i: 0 }
    }

    /// Returns an identity matrix.
    pub fn identity() -> (r: Mat3)
        ensures
            r@ == Mat3Model::identity(),
    {
        Mat3 { a: 1, b: 0, c: 0, d: 0, e: 1, f: 0, g: 0, h: 0, i: 1 }
    }

    /// Creates a new Mat3 from a row-major ordered array.
    pub fn new_from_array(input: &[i64; 9]) -> (r: Mat3)
        ensures
            r == Mat3::from_row_seq(input@),
    {
        Mat3 {
            a: input[0], b: input[1], c: input[2],
            d: input[3], e: input[4], f: input[5],
            g: input[6], h: input[7], i: input[8],
        }
    }

    /// Creates a Mat3 from a column-major ordered array.
    pub fn new_from_col_array(input: &[i64; 9]) -> (r: Mat3)
        ensures
            r == Mat3::from_col_seq(input@),
    {
        Mat3 {
            a: input[0], b: input[3], c: input[6],
            d: input[1], e: input[4], f: input[7],
            g: input[2], h: input[5], i: input[8],
        }
    }

    /// Returns an array of the Mat3 elements in row-major order.
    pub fn to_array(&self) -> (r: [i64; 9])
        ensures
            r@ == self.to_row_seq(),
    {
        let r: [i64; 9] = [
            self.a, self.b, self.c,
            self.d, self.e, self.f,
            self.g, self.h, self.i,
        ];
        proof {
            assert(r@ =~= self.to_row_seq());
        }
        r
    }

    /// Returns an array of the Mat3 elements in column-major order.
    pub fn to_col_array(&self) -> (r: [i64; 9])
        ensures
            r@ == self.to_col_seq(),
    {
        let r: [i64; 9] = [
            self.a, self.d, self.g,
            self.b, self.e, self.h,
            self.c, self.f, self.i,
        ];
        proof {
            assert(r@ =~= self.to_col_seq());
        }
        r
    }

    /// Returns the matrix as an array of Vec3 columns: column i holds the
    /// i-th column read top to bottom.
    pub fn to_vec3_array(&self) -> (r: [Vec3; 3])
        ensures
            r[0] == (Vec3 { x: self.a, y: self.d, z: self.g }),
            r[1] == (Vec3 { x: self.b, y: self.e, z: self.h }),
            r[2] == (Vec3 { x: self.c, y: self.f, z: self.i }),
    {
        [
            Vec3 { x: self.a, y: self.d, z: self.g },
            Vec3 { x: self.b, y: self.e, z: self.h },
            Vec3 { x: self.c, y: self.f, z: self.i },
        ]
    }

    /// Returns the determinant of a Mat3: cofactor expansion along the
    /// first row, each 2x2 minor evaluated by the base identity, in the
    /// fixed grouping and evaluation order of the contract.
    pub fn determinant(&self) -> (r: i64)
        requires
            self.bounded(MAT3_DET_ENTRY_MAX as int),
        ensures
            r == self@.determinant(),
            r == self@.determinant_expanded(),
    {
        proof {
            let l: int = MAT3_DET_ENTRY_MAX as int;
            lemma_mul_in_bounds(self.e as int, self.i as int, l, l);
            lemma_mul_in_bounds(self.f as int, self.h as int, l, l);
            lemma_mul_in_bounds(self.f as int, self.g as int, l, l);
            lemma_mul_in_bounds(self.d as int, self.i as int, l, l);
            lemma_mul_in_bounds(self.d as int, self.h as int, l, l);
            lemma_mul_in_bounds(self.e as int, self.g as int, l, l);
        }
        let minor_a: i64 = (self.e * self.i) - (self.f * self.h);
        let minor_b: i64 = (self.f * self.g) - (self.d * self.i);
        let minor_c: i64 = (self.d * self.h) - (self.e * self.g);
        proof {
            let l: int = MAT3_DET_ENTRY_MAX as int;
            lemma_mul_in_bounds(self.a as int, minor_a as int, l, 2 * l * l);
            lemma_mul_in_bounds(self.b as int, minor_b as int, l, 2 * l * l);
            lemma_mul_in_bounds(self.c as int, minor_c as int, l, 2 * l * l);
            lemma_determinant_equals_expansion(self@);
        }
        (self.a * minor_a) + (self.b * minor_b) + (self.c * minor_c)
    }

    /// Returns a new Mat3 that is the transpose of the original Mat3.
    pub fn transpose(&self) -> (r: Mat3)
        ensures
            r == self.transposed(),
    {
        Mat3 {
            a: self.a, b: self.d, c: self.g,
            d: self.b, e: self.e, f: self.h,
            g: self.c, h: self.f, i: self.i,
        }
    }

    /// Multiplies two Mat3s together, returning a new Mat3.
    ///
    /// Keep in mind that matrix multiplication is not commutative:
    /// `A*B != B*A` for most matrices (the main exception being the
    /// identity matrix).
    pub fn multiply(&self, other: &Mat3) -> (r: Mat3)
        requires
            self.bounded(MAT3_MUL_ENTRY_MAX as int),
            other.bounded(MAT3_MUL_ENTRY_MAX as int),
        ensures
            r@ == self@.multiply(other@),
    {
        Mat3 {
            a: row_dot3(self.a, self.b, self.c, other.a, other.d, other.g),
            b: row_dot3(self.a, self.b, self.c, other.b, other.e, other.h),
            c: row_dot3(self.a, self.b, self.c, other.c, other.f, other.i),
            d: row_dot3(self.d, self.e, self.f, other.a, other.d, other.g),
            e: row_dot3(self.d, self.e, self.f, other.b, other.e, other.h),
            f: row_dot3(self.d, self.e, self.f, other.c, other.f, other.i),
            g: row_dot3(self.g, self.h, self.i, other.a, other.d, other.g),
            h: row_dot3(self.g, self.h, self.i, other.b, other.e, other.h),
            i: row_dot3(self.g, self.h, self.i, other.c, other.f, other.i),
        }
    }

    /// Multiplies a Mat3 by a Vec3 taken as a column, returning the Vec3
    /// with `result[r] = sum over k of self[r][k] * v[k]`.
    pub fn multiply_vec3(&self, vec3: &Vec3) -> (r: Vec3)
        requires
            self.bounded(MAT3_MUL_ENTRY_MAX as int),
            vec3.bounded(MAT3_MUL_ENTRY_MAX as int),
        ensures
            r.x == self.a * vec3.x + self.b * vec3.y + self.c * vec3.z,
            r.y == self.d * vec3.x + self.e * vec3.y + self.f * vec3.z,
            r.z == self.g * vec3.x + self.h * vec3.y + self.i * vec3.z,
    {
        Vec3 {
            x: row_dot3(self.a, self.b, self.c, vec3.x, vec3.y, vec3.z),
            y: row_dot3(self.d, self.e, self.f, vec3.x, vec3.y, vec3.z),
            z: row_dot3(self.g, self.h, self.i, vec3.x, vec3.y, vec3.z),
        }
    }

    /// Multiplies a Mat3 and a scalar together, element-wise, and returns
    /// the new Mat3.
    pub fn scale(&self, scalar: i64) -> (r: Mat3)
        requires
            fits_i64(scalar * self.a),
            fits_i64(scalar * self.b),
            fits_i64(scalar * self.c),
            fits_i64(scalar * self.d),
            fits_i64(scalar * self.e),
            fits_i64(scalar * self.f),
            fits_i64(scalar * self.g),
            fits_i64(scalar * self.h),
            fits_i64(scalar * self.i),
        ensures
            r.a == scalar * self.a,
            r.b == scalar * self.b,
            r.c == scalar * self.c,
            r.d == scalar * self.d,
            r.e == scalar * self.e,
            r.f == scalar * self.f,
            r.g == scalar * self.g,
            r.h == scalar * self.h,
            r.i == scalar * self.i,
    {
        Mat3 {
            a: scalar * self.a,
            b: scalar * self.b,
            c: scalar * self.c,
            d: scalar * self.d,
            e: scalar * self.e,
            f: scalar * self.f,
            g: scalar * self.g,
            h: scalar * self.h,
            i: scalar * self.i,
        }
    }
}

impl Default for Mat3 {
    /// The zero matrix, as `Mat3::new` returns it.
    fn default() -> (r: Mat3)
        ensures
            r == (Mat3 {
                a: 0i64, b: 0i64, c: 0i64,
                d: 0i64, e: 0i64, f: 0i64,
                g: 0i64, h: 0i64, i: 0i64,
            }),
    {
        Mat3::new()
    }
}

/// One row-by-column step of a 3x3 product: `a*x + b*y + c*z`, evaluated
/// left to right.
fn row_dot3(a: i64, b: i64, c: i64, x: i64, y: i64, z: i64) -> (r: i64)
    requires
        -MAT3_MUL_ENTRY_MAX <= a <= MAT3_MUL_ENTRY_MAX,
        -MAT3_MUL_ENTRY_MAX <= b <= MAT3_MUL_ENTRY_MAX,
        -MAT3_MUL_ENTRY_MAX <= c <= MAT3_MUL_ENTRY_MAX,
        -MAT3_MUL_ENTRY_MAX <= x <= MAT3_MUL_ENTRY_MAX,
        -MAT3_MUL_ENTRY_MAX <= y <= MAT3_MUL_ENTRY_MAX,
        -MAT3_MUL_ENTRY_MAX <= z <= MAT3_MUL_ENTRY_MAX,
    ensures
        r == a * x + b * y + c * z,
{
    proof {
        let l: int = MAT3_MUL_ENTRY_MAX as int;
        lemma_mul_in_bounds(a as int, x as int, l, l);
        lemma_mul_in_bounds(b as int, y as int, l, l);
        lemma_mul_in_bounds(c as int, z as int, l, l);
    }
    (a * x) + (b * y) + (c * z)
}

/// Converting a Mat3 to its row-major array form and back yields the
/// same matrix: the two conversions are mutual inverses.
pub proof fn lemma_row_array_round_trip(m: Mat3)
    ensures
        Mat3::from_row_seq(m.to_row_seq()) == m,
{
}

/// Converting a Mat3 to its column-major array form and back yields the
/// same matrix: the two conversions are mutual inverses.
pub proof fn lemma_col_array_round_trip(m: Mat3)
    ensures
        Mat3::from_col_seq(m.to_col_seq()) == m,
{
}

/// The column-major array of a matrix equals the row-major array of its
/// transpose.
pub proof fn lemma_col_array_is_transpose(m: Mat3)
    ensures
        m.to_col_seq() == m.transposed().to_row_seq(),
{
    assert(m.to_col_seq() =~= m.transposed().to_row_seq());
}

/// Transposing twice yields the original matrix.
pub proof fn lemma_transpose_involution(m: Mat3)
    ensures
        m.transposed().transposed() == m,
{
}

/// Multiplying by the identity matrix, on either side, yields the
/// original matrix.
pub proof fn lemma_multiply_identity(m: Mat3Model)
    ensures
        m.multiply(Mat3Model::identity()) == m,
        Mat3Model::identity().multiply(m) == m,
{
}

/// Matrix multiplication is not commutative: two matrices whose products
/// differ in each order.
pub proof fn lemma_multiply_not_commutative()
    ensures
        exists|m: Mat3Model, n: Mat3Model| m.multiply(n) != n.multiply(m),
{
    let m = Mat3Model { a: 0, b: 1, c: 0, d: 0, e: 0, f: 0, g: 0, h: 0, i: 0 };
    let n = Mat3Model { a: 0, b: 0, c: 0, d: 1, e: 0, f: 0, g: 0, h: 0, i: 0 };
    assert(m.multiply(n).a == 1);
    assert(n.multiply(m).a == 0);
    assert(m.multiply(n) != n.multiply(m));
}

/// The grouped first-row cofactor form of the 3x3 determinant equals the
/// brute-force six-term permutation expansion: the grouping is an exact
/// algebraic regrouping, not an approximation.
pub proof fn lemma_determinant_equals_expansion(m: Mat3Model)
    ensures
        m.determinant() == m.determinant_expanded(),
{
    assert(m.a * (m.e * m.i - m.f * m.h) == m.a * m.e * m.i - m.a * m.f * m.h)
        by (nonlinear_arith);
    assert(m.b * (m.f * m.g - m.d * m.i) == m.b * m.f * m.g - m.b * m.d * m.i)
        by (nonlinear_arith);
    assert(m.c * (m.d * m.h - m.e * m.g) == m.c * m.d * m.h - m.c * m.e * m.g)
        by (nonlinear_arith);
}

} // verus!
