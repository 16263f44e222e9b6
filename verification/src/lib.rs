//! Matriarch: a fixed-size linear-algebra kernel.
//!
//! The library provides 2x2, 3x3 and 4x4 matrices and 2-, 3- and
//! 4-component vectors over the machine scalar `i64`, with the arithmetic
//! operators and derived quantities (determinant, transpose, dot and cross
//! product, matrix-vector and matrix-matrix products) needed for geometric
//! computation.  All values are immutable value types in row-major element
//! layout; every operation returns a new value, except the explicit
//! assign variants, which replace the receiver whole.
//!
//! Arithmetic is exact: every operation carries a contract that pins its
//! result down to the mathematical integer it denotes, and the closed-form
//! determinant formulas are proved equal to the brute-force permutation
//! expansion.  Where an intermediate could exceed the scalar's range, the
//! operation's precondition names the inputs it admits: the component-wise
//! operations admit exactly the inputs whose results fit, and the
//! determinant and multiplication routines admit a documented element
//! magnitude under which every intermediate fits.
//!
//! Multiplication is the straightforward row-by-column composition
//! throughout.  At these fixed small sizes a divide-and-conquer scheme
//! costs more in overhead than it saves in multiplications, so none is
//! used, and none should be added.

use vstd::prelude::*;

pub mod mat2;
pub mod mat3;
pub mod mat4;
pub mod vec2;
pub mod vec3;
pub mod vec4;

pub use mat2::Mat2;
pub use mat3::Mat3;
pub use mat4::Mat4;
pub use vec2::Vec2;
pub use vec3::Vec3;
pub use vec4::Vec4;

verus! {

/// True when the mathematical integer `x` fits the machine scalar `i64`.
///
/// The component-wise operations admit exactly the inputs whose results
/// satisfy this predicate, so their preconditions are as weak as 64-bit
/// arithmetic allows.
pub open spec fn fits_i64(x: int) -> bool {
    i64::MIN <= x <= i64::MAX
}

/// A product of two bounded factors is bounded by the product of the bounds.
///
/// The determinant and multiplication routines quote this fact once per
/// machine multiplication to discharge their overflow checks.
pub proof fn lemma_mul_in_bounds(x: int, y: int, bx: int, by: int)
    by (nonlinear_arith)
    requires
        0 <= bx,
        0 <= by,
        -bx <= x <= bx,
        -by <= y <= by,
    ensures
        -(bx * by) <= x * y <= bx * by,
{
}

/// The integer square root: the greatest `r` with `r * r <= s`, found
/// by binary search.  The vector length computations build on it.
///
/// The search starts just above the square root of the largest
/// admitted input, so the bound and the loop's overflow checks rest on
/// `3037000500 * 3037000500` exceeding `i64::MAX`.
pub(crate) fn isqrt_u64(s: u64) -> (r: u64)
    requires
        s <= i64::MAX as u64,
    ensures
        r * r <= s,
        s < (r + 1) * (r + 1),
        r <= 3037000499,
{
    let mut lo: u64 = 0;
    let mut hi: u64 = 3037000500;
    while lo + 1 < hi
        invariant
            lo < hi <= 3037000500,
            lo * lo <= s,
            s < hi * hi,
        decreases hi - lo,
    {
        let mid: u64 = lo + (hi - lo) / 2;
        proof {
            lemma_mul_in_bounds(mid as int, mid as int, 3037000499, 3037000499);
        }
        if mid * mid <= s {
            lo = mid;
        } else {
            hi = mid;
        }
    }
    lo
}

} // verus!

