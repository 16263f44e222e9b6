use matriarch::mat4::MAT4_DET_ENTRY_MAX;
use matriarch::mat4::MAT4_MUL_ENTRY_MAX;
use matriarch::Mat2;
use matriarch::Mat3;
use matriarch::Mat4;
use matriarch::Vec2;
use matriarch::Vec3;
use matriarch::Vec4;

#[test]
fn mat2_row_array_round_trip() {
    let m = Mat2 { a: 5, b: -2, c: 9, d: 4 };
    assert_eq!(Mat2::new_from_array(&m.to_array()), m);
}

#[test]
fn mat2_col_array_round_trip() {
    let m = Mat2 { a: 5, b: -2, c: 9, d: 4 };
    assert_eq!(Mat2::new_from_col_array(&m.to_col_array()), m);
}

#[test]
fn mat3_row_array_round_trip() {
    let m = Mat3 { a: 5, b: -2, c: 9, d: 4, e: 0, f: 7, g: -1, h: 3, i: 8 };
    assert_eq!(Mat3::new_from_array(&m.to_array()), m);
}

#[test]
fn mat3_col_array_round_trip() {
    let m = Mat3 { a: 5, b: -2, c: 9, d: 4, e: 0, f: 7, g: -1, h: 3, i: 8 };
    assert_eq!(Mat3::new_from_col_array(&m.to_col_array()), m);
}

#[test]
fn mat4_row_array_round_trip() {
    let array: [i64; 16] = [3, 1, 4, 1, 5, 9, 2, 6, 5, 3, 5, 8, 9, 7, 9, 3];
    let m = Mat4::new_from_array(&array);
    assert_eq!(Mat4::new_from_array(&m.to_array()), m);
}

#[test]
fn mat4_col_array_round_trip() {
    let array: [i64; 16] = [3, 1, 4, 1, 5, 9, 2, 6, 5, 3, 5, 8, 9, 7, 9, 3];
    let m = Mat4::new_from_array(&array);
    assert_eq!(Mat4::new_from_col_array(&m.to_col_array()), m);
}

#[test]
fn vec2_array_round_trip() {
    let v = Vec2 { x: -7, y: 11 };
    assert_eq!(Vec2::new_from_array(&v.to_array()), v);
}

#[test]
fn vec3_array_round_trip() {
    let v = Vec3 { x: -7, y: 11, z: 0 };
    assert_eq!(Vec3::new_from_array(&v.to_array()), v);
}

#[test]
fn vec4_array_round_trip() {
    let v = Vec4 { x: -7, y: 11, z: 0, w: 23 };
    assert_eq!(Vec4::new_from_array(&v.to_array()), v);
}

#[test]
fn mat2_transpose_involution() {
    let m = Mat2 { a: 5, b: -2, c: 9, d: 4 };
    assert_eq!(m.transpose().transpose(), m);
}

#[test]
fn mat3_transpose_involution() {
    let m = Mat3 { a: 5, b: -2, c: 9, d: 4, e: 0, f: 7, g: -1, h: 3, i: 8 };
    assert_eq!(m.transpose().transpose(), m);
}

#[test]
fn mat4_transpose_involution() {
    let array: [i64; 16] = [3, 1, 4, 1, 5, 9, 2, 6, 5, 3, 5, 8, 9, 7, 9, 3];
    let m = Mat4::new_from_array(&array);
    assert_eq!(m.transpose().transpose(), m);
}

#[test]
fn mat2_col_array_matches_transpose() {
    let m = Mat2 { a: 5, b: -2, c: 9, d: 4 };
    assert_eq!(m.to_col_array(), m.transpose().to_array());
}

#[test]
fn mat3_col_array_matches_transpose() {
    let m = Mat3 { a: 5, b: -2, c: 9, d: 4, e: 0, f: 7, g: -1, h: 3, i: 8 };
    assert_eq!(m.to_col_array(), m.transpose().to_array());
}

#[test]
fn mat4_col_array_matches_transpose() {
    let array: [i64; 16] = [3, 1, 4, 1, 5, 9, 2, 6, 5, 3, 5, 8, 9, 7, 9, 3];
    let m = Mat4::new_from_array(&array);
    assert_eq!(m.to_col_array(), m.transpose().to_array());
}

#[test]
fn mat2_identity_law_both_sides() {
    let m = Mat2 { a: 5, b: -2, c: 9, d: 4 };
    let iden = Mat2::identity();
    assert_eq!(m.multiply(&iden), m);
    assert_eq!(iden.multiply(&m), m);
}

#[test]
fn mat3_identity_law_both_sides() {
    let m = Mat3 { a: 5, b: -2, c: 9, d: 4, e: 0, f: 7, g: -1, h: 3, i: 8 };
    let iden = Mat3::identity();
    assert_eq!(m.multiply(&iden), m);
    assert_eq!(iden.multiply(&m), m);
}

#[test]
fn mat4_identity_law_both_sides() {
    let array: [i64; 16] = [3, 1, 4, 1, 5, 9, 2, 6, 5, 3, 5, 8, 9, 7, 9, 3];
    let m = Mat4::new_from_array(&array);
    let iden = Mat4::identity();
    assert_eq!(m.multiply(&iden), m);
    assert_eq!(iden.multiply(&m), m);
}

#[test]
fn mat2_multiplication_not_commutative() {
    let m = Mat2 { a: 1, b: 2, c: 1, d: 3 };
    let n = Mat2 { a: 2, b: 5, c: 3, d: 4 };
    assert_ne!(m.multiply(&n), n.multiply(&m));
}

#[test]
fn mat3_multiplication_not_commutative() {
    let m = Mat3 { a: -4, b: -3, c: -2, d: -1, e: 0, f: 1, g: 2, h: 3, i: 4 };
    let n = Mat3 { a: 1, b: 2, c: 2, d: 9, e: 8, f: 0, g: 1, h: 1, i: 6 };
    assert_ne!(m.multiply(&n), n.multiply(&m));
}

#[test]
fn mat4_multiplication_not_commutative() {
    let a1: [i64; 16] = [-8, -7, -6, -5, -4, -3, -2, -1, 1, 2, 3, 4, 5, 6, 7, 8];
    let a2: [i64; 16] = [1, 10, 8, 0, -6, -1, -5, -4, 14, 15, 14, 2, -8, -4, 7, 2];
    let m = Mat4::new_from_array(&a1);
    let n = Mat4::new_from_array(&a2);
    assert_ne!(m.multiply(&n), n.multiply(&m));
}

#[test]
fn mat3_determinant_matches_expansion() {
    let m = Mat3 { a: 3, b: 1, c: 4, d: 1, e: 5, f: 9, g: 2, h: 6, i: 5 };
    let expansion: i64 = m.a * m.e * m.i - m.a * m.f * m.h
        - m.b * m.d * m.i + m.b * m.f * m.g
        + m.c * m.d * m.h - m.c * m.e * m.g;
    assert_eq!(m.determinant(), expansion);
    assert_eq!(expansion, -90);
}

#[test]
fn mat4_determinant_matches_expansion() {
    let array: [i64; 16] = [3, 1, 4, 1, 5, 9, 2, 6, 5, 3, 5, 8, 9, 7, 9, 3];
    let m = Mat4::new_from_array(&array);
    let expansion: i64 = m.a * m.f * m.k * m.p - m.a * m.f * m.l * m.o
        - m.a * m.g * m.j * m.p + m.a * m.g * m.l * m.n
        + m.a * m.h * m.j * m.o - m.a * m.h * m.k * m.n
        - m.b * m.e * m.k * m.p + m.b * m.e * m.l * m.o
        + m.b * m.g * m.i * m.p - m.b * m.g * m.l * m.m
        - m.b * m.h * m.i * m.o + m.b * m.h * m.k * m.m
        + m.c * m.e * m.j * m.p - m.c * m.e * m.l * m.n
        - m.c * m.f * m.i * m.p + m.c * m.f * m.l * m.m
        + m.c * m.h * m.i * m.n - m.c * m.h * m.j * m.m
        - m.d * m.e * m.j * m.o + m.d * m.e * m.k * m.n
        + m.d * m.f * m.i * m.o - m.d * m.f * m.k * m.m
        - m.d * m.g * m.i * m.n + m.d * m.g * m.j * m.m;
    assert_eq!(m.determinant(), expansion);
    assert_eq!(expansion, 98);
}

#[test]
fn mat4_determinant_at_entry_limit() {
    let lim: i64 = MAT4_DET_ENTRY_MAX;
    let m = Mat4 {
        a: lim, b: 0, c: 0, d: 0,
        e: 0, f: lim, g: 0, h: 0,
        i: 0, j: 0, k: lim, l: 0,
        m: 0, n: 0, o: 0, p: lim,
    };
    assert_eq!(m.determinant(), 72057594037927936);
    let flat = Mat4 {
        a: lim, b: lim, c: lim, d: lim,
        e: lim, f: lim, g: lim, h: lim,
        i: lim, j: lim, k: lim, l: lim,
        m: lim, n: lim, o: lim, p: lim,
    };
    assert_eq!(flat.determinant(), 0);
    let neg = Mat4 {
        a: -lim, b: -lim, c: -lim, d: -lim,
        e: -lim, f: -lim, g: -lim, h: -lim,
        i: -lim, j: -lim, k: -lim, l: -lim,
        m: -lim, n: -lim, o: -lim, p: -lim,
    };
    assert_eq!(neg.determinant(), 0);
}

#[test]
fn mat4_multiplication_at_entry_limit() {
    let lim: i64 = MAT4_MUL_ENTRY_MAX;
    let m = Mat4 {
        a: lim, b: lim, c: lim, d: lim,
        e: lim, f: lim, g: lim, h: lim,
        i: lim, j: lim, k: lim, l: lim,
        m: lim, n: lim, o: lim, p: lim,
    };
    let product = m.multiply(&m);
    assert_eq!(product.a, 4611686018427387904);
    assert_eq!(product.p, 4611686018427387904);
    assert_eq!(m.multiply(&Mat4::identity()), m);
}
