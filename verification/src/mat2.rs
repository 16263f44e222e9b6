//! A 2x2 matrix and its associated functions and methods.

use vstd::prelude::*;

use crate::fits_i64;
use crate::lemma_mul_in_bounds;
use crate::vec2::Vec2;

verus! {

/// Largest element magnitude the Mat2 determinant and multiplication
/// routines admit.
///
/// With every element in `[-2^30, 2^30]`, each product of two elements
/// stays within `2^60` and each two-term sum within `2^61`, so every
/// intermediate of those routines fits an `i64`.
pub const MAT2_ENTRY_MAX: i64 = 0x4000_0000;

/// A 2x2 Matrix with elements arranged in row-major order.
///
/// A Mat2 is laid out as follows:
///
/// ```plaintext
///     [ a  b ]
/// A = [ c  d ]
/// ```
///
/// The row-major letter assignment (a = row 0 col 0, b = row 0 col 1, ...)
/// is part of the type's contract: the array conversions depend on it.
#[derive(Clone, Copy, Debug, PartialEq, Eq, Structural)]
pub struct Mat2 {
    pub a: i64,
    pub b: i64,
    pub c: i64,
    pub d: i64,
}

/// The mathematical-integer value of a Mat2: the same four elements,
/// free of any machine range.  The algebraic laws of the 2x2 operations
/// are stated and proved over this model.
pub ghost struct Mat2Model {
    pub a: int,
    pub b: int,
    pub c: int,
    pub d: int,
}

impl Mat2Model {
    /// The identity matrix: 1 on the row-major diagonal, 0 elsewhere.
    pub open spec fn identity() -> Mat2Model {
        Mat2Model { a: 1, b: 0, c: 0, d: 1 }
    }

    /// Row-by-column composition:
    /// `result[r][c] = sum over k of self[r][k] * other[k][c]`.
    pub open spec fn multiply(self, other: Mat2Model) -> Mat2Model {
        Mat2Model {
            a: self.a * other.a + self.b * other.c,
            b: self.a * other.b + self.b * other.d,
            c: self.c * other.a + self.d * other.c,
            d: self.c * other.b + self.d * other.d,
        }
    }

    /// The 2x2 determinant base identity: `a*d - b*c`.
    ///
    /// This two-term form is already the full permutation expansion of
    /// the 2x2 determinant; the larger sizes reduce to it minor by minor.
    pub open spec fn determinant(self) -> int {
        self.a * self.d - self.b * self.c
    }
}

impl View for Mat2 {
    type V = Mat2Model;

    open spec fn view(&self) -> Mat2Model {
        Mat2Model { a: self.a as int, b: self.b as int, c: self.c as int, d: self.d as int }
    }
}

impl Mat2 {
    /// The elements in row-major order: a, b, c, d.
    pub open spec fn to_row_seq(self) -> Seq<i64> {
        seq![self.a, self.b, self.c, self.d]
    }

    /// The elements in column-major order: a, c, b, d.
    pub open spec fn to_col_seq(self) -> Seq<i64> {
        seq![self.a, self.c, self.b, self.d]
    }

    /// The matrix whose row-major elements are the first four elements
    /// of `s`.
    pub open spec fn from_row_seq(s: Seq<i64>) -> Mat2
        recommends
            s.len() == 4,
    {
        Mat2 { a: s[0], b: s[1], c: s[2], d: s[3] }
    }

    /// The matrix whose column-major elements are the first four elements
    /// of `s`: element i of the input lands at the transposed row-major
    /// field.
    pub open spec fn from_col_seq(s: Seq<i64>) -> Mat2
        recommends
            s.len() == 4,
    {
        Mat2 { a: s[0], b: s[2], c: s[1], d: s[3] }
    }

    /// The transpose: element (r, c) swapped with element (c, r) for the
    /// off-diagonal pair, the diagonal unchanged.
    pub open spec fn transposed(self) -> Mat2 {
        Mat2 { a: self.a, b: self.c, c: self.b, d: self.d }
    }

    /// True when every element lies in `[-max, max]`.
    pub open spec fn bounded(self, max: int) -> bool {
        &&& -max <= self.a <= max
        &&& -max <= self.b <= max
        &&& -max <= self.c <= max
        &&& -max <= self.d <= max
    }

    /// Returns a new Mat2 with all elements set to 0.
    pub fn new() -> (r: Mat2)
        ensures
            r == (Mat2 { a: 0i64, b: 0i64, c: 0i64, d: 0i64 }),
    {
        Mat2 { a: 0, b: 0, c: 0, d: 0 }
    }

    /// Returns an identity matrix.
    pub fn identity() -> (r: Mat2)
        ensures
            r@ == Mat2Model::identity(),
    {
        Mat2 { a: 1, b: 0, c: 0, d: 1 }
    }

    /// Creates a new Mat2 using the borrowed values.
    pub fn new_from_values(a: &i64, b: &i64, c: &i64, d: &i64) -> (r: Mat2)
        ensures
            r.a == *a,
            r.b == *b,
            r.c == *c,
            r.d == *d,
    {
        Mat2 { a: *a, b: *b, c: *c, d: *d }
    }

    /// Creates a new Mat2 from a row-major ordered array.
    pub fn new_from_array(input: &[i64; 4]) -> (r: Mat2)
        ensures
            r == Mat2::from_row_seq(input@),
    {
        Mat2 { a: input[0], b: input[1], c: input[2], d: input[3] }
    }

    /// Creates a Mat2 from a column-major ordered array.
    pub fn new_from_col_array(input: &[i64; 4]) -> (r: Mat2)
        ensures
            r == Mat2::from_col_seq(input@),
    {
        Mat2 { a: input[0], b: input[2], c: input[1], d: input[3] }
    }

    /// Returns an array of the Mat2 elements in row-major order.
    pub fn to_array(&self) -> (r: [i64; 4])
        ensures
            r@ == self.to_row_seq(),
    {
        let r: [i64; 4] = [self.a, self.b, self.c, self.d];
        proof {
            assert(r@ =~= self.to_row_seq());
        }
        r
    }

    /// Returns an array of the Mat2 elements in column-major order.
    pub fn to_col_array(&self) -> (r: [i64; 4])
        ensures
            r@ == self.to_col_seq(),
    {
        let r: [i64; 4] = [self.a, self.c, self.b, self.d];
        proof {
            assert(r@ =~= self.to_col_seq());
        }
        r
    }

    /// Returns the matrix as an array of Vec2 columns: column i holds the
    /// i-th column read top to bottom.
    pub fn to_vec2_array(&self) -> (r: [Vec2; 2])
        ensures
            r[0] == (Vec2 { x: self.a, y: self.c }),
            r[1] == (Vec2 { x: self.b, y: self.d }),
    {
        [Vec2 { x: self.a, y: self.c }, Vec2 { x: self.b, y: self.d }]
    }

    /// Returns the determinant of a Mat2, by the base identity
    /// `a*d - b*c`.
    pub fn determinant(&self) -> (r: i64)
        requires
            self.bounded(MAT2_ENTRY_MAX as int),
        ensures
            r == self@.determinant(),
    {
        proof {
            lemma_mul_in_bounds(self.a as int, self.d as int, MAT2_ENTRY_MAX as int, MAT2_ENTRY_MAX as int);
            lemma_mul_in_bounds(self.b as int, self.c as int, MAT2_ENTRY_MAX as int, MAT2_ENTRY_MAX as int);
        }
        (self.a * self.d) - (self.b * self.c)
    }

    /// Returns a new Mat2 that is the transpose of the original Mat2.
    pub fn transpose(&self) -> (r: Mat2)
        ensures
            r == self.transposed(),
    {
        Mat2 { a: self.a, b: self.c, c: self.b, d: self.d }
    }

    /// Multiplies two Mat2s together, returning a new Mat2.
    ///
    /// Keep in mind that matrix multiplication is not commutative:
    /// `A*B != B*A` for most matrices (the main exception being the
    /// identity matrix).
    pub fn multiply(&self, other: &Mat2) -> (r: Mat2)
        requires
            self.bounded(MAT2_ENTRY_MAX as int),
            other.bounded(MAT2_ENTRY_MAX as int),
        ensures
            r@ == self@.multiply(other@),
    {
        Mat2 {
            a: row_dot2(self.a, self.b, other.a, other.c),
            b: row_dot2(self.a, self.b, other.b, other.d),
            c: row_dot2(self.c, self.d, other.a, other.c),
            d: row_dot2(self.c, self.d, other.b, other.d),
        }
    }

    /// Multiplies a Mat2 by a Vec2 taken as a column, returning the Vec2
    /// with `result[r] = sum over k of self[r][k] * v[k]`.
    pub fn multiply_vec2(&self, vec2: &Vec2) -> (r: Vec2)
        requires
            self.bounded(MAT2_ENTRY_MAX as int),
            vec2.bounded(MAT2_ENTRY_MAX as int),
        ensures
            r.x == self.a * vec2.x + self.b * vec2.y,
            r.y == self.c * vec2.x + self.d * vec2.y,
    {
        Vec2 {
            x: row_dot2(self.a, self.b, vec2.x, vec2.y),
            y: row_dot2(self.c, self.d, vec2.x, vec2.y),
        }
    }

    /// Multiplies a Mat2 and a scalar together, element-wise, and returns
    /// the new Mat2.
    pub fn scale(&self, scalar: i64) -> (r: Mat2)
        requires
            fits_i64(scalar * self.a),
            fits_i64(scalar * self.b),
            fits_i64(scalar * self.c),
            fits_i64(scalar * self.d),
        ensures
            r.a == scalar * self.a,
            r.b == scalar * self.b,
            r.c == scalar * self.c,
            r.d == scalar * self.d,
    {
        Mat2 {
            a: scalar * self.a,
            b: scalar * self.b,
            c: scalar * self.c,
            d: scalar * self.d,
        }
    }
}

impl Default for Mat2 {
    /// The zero matrix, as `Mat2::new` returns it.
    fn default() -> (r: Mat2)
        ensures
            r == (Mat2 { a: 0i64, b: 0i64, c: 0i64, d: 0i64 }),
    {
        Mat2::new()
    }
}

/// One row-by-column step of a 2x2 product: `a*x + b*y`, evaluated left
/// to right.
fn row_dot2(a: i64, b: i64, x: i64, y: i64) -> (r: i64)
    requires
        -MAT2_ENTRY_MAX <= a <= MAT2_ENTRY_MAX,
        -MAT2_ENTRY_MAX <= b <= MAT2_ENTRY_MAX,
        -MAT2_ENTRY_MAX <= x <= MAT2_ENTRY_MAX,
        -MAT2_ENTRY_MAX <= y <= MAT2_ENTRY_MAX,
    ensures
        r == a * x + b * y,
{
    proof {
        lemma_mul_in_bounds(a as int, x as int, MAT2_ENTRY_MAX as int, MAT2_ENTRY_MAX as int);
        lemma_mul_in_bounds(b as int, y as int, MAT2_ENTRY_MAX as int, MAT2_ENTRY_MAX as int);
    }
    (a * x) + (b * y)
}

/// Converting a Mat2 to its row-major array form and back yields the
/// same matrix: the two conversions are mutual inverses.
pub proof fn lemma_row_array_round_trip(m: Mat2)
    ensures
        Mat2::from_row_seq(m.to_row_seq()) == m,
{
}

/// Converting a Mat2 to its column-major array form and back yields the
/// same matrix: the two conversions are mutual inverses.
pub proof fn lemma_col_array_round_trip(m: Mat2)
    ensures
        Mat2::from_col_seq(m.to_col_seq()) == m,
{
}

/// The column-major array of a matrix equals the row-major array of its
/// transpose.
pub proof fn lemma_col_array_is_transpose(m: Mat2)
    ensures
        m.to_col_seq() == m.transposed().to_row_seq(),
{
    assert(m.to_col_seq() =~= m.transposed().to_row_seq());
}

/// Transposing twice yields the original matrix.
pub proof fn lemma_transpose_involution(m: Mat2)
    ensures
        m.transposed().transposed() == m,
{
}

/// Multiplying by the identity matrix, on either side, yields the
/// original matrix.
pub proof fn lemma_multiply_identity(m: Mat2Model)
    ensures
        m.multiply(Mat2Model::identity()) == m,
        Mat2Model::identity().multiply(m) == m,
{
}

/// Matrix multiplication is not commutative: two matrices whose products
/// differ in each order.
pub proof fn lemma_multiply_not_commutative()
    ensures
        exists|m: Mat2Model, n: Mat2Model| m.multiply(n) != n.multiply(m),
{
    let m = Mat2Model { a: 0, b: 1, c: 0, d: 0 };
    let n = Mat2Model { a: 0, b: 0, c: 1, d: 0 };
    assert(m.multiply(n).a == 1);
    assert(n.multiply(m).a == 0);
    assert(m.multiply(n) != n.multiply(m));
}

} // verus!
