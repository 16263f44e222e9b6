use matriarch::Mat4;
use matriarch::Vec4;

#[test]
fn create_new_mat4() {
    assert_eq!(
        Mat4::new(),
        Mat4 {
            a: 0, b: 0, c: 0, d: 0,
            e: 0, f: 0, g: 0, h: 0,
            i: 0, j: 0, k: 0, l: 0,
            m: 0, n: 0, o: 0, p: 0,
        }
    );
}

#[test]
fn create_new_mat4_identity() {
    assert_eq!(
        Mat4::identity(),
        Mat4 {
            a: 1, b: 0, c: 0, d: 0,
            e: 0, f: 1, g: 0, h: 0,
            i: 0, j: 0, k: 1, l: 0,
            m: 0, n: 0, o: 0, p: 1,
        }
    );
}

#[test]
fn create_new_mat4_from_array() {
    let array: [i64; 16] = [1, 2, 3, 4, 5, 6, 7, 8, 9, 10, 11, 12, 13, 14, 15, 16];
    assert_eq!(
        Mat4::new_from_array(&array),
        Mat4 {
            a: 1, b: 2, c: 3, d: 4,
            e: 5, f: 6, g: 7, h: 8,
            i: 9, j: 10, k: 11, l: 12,
            m: 13, n: 14, o: 15, p: 16,
        }
    );
}

#[test]
fn create_new_mat4_from_col_array() {
    let array: [i64; 16] = [1, 2, 3, 4, 5, 6, 7, 8, 9, 10, 11, 12, 13, 14, 15, 16];
    assert_eq!(
        Mat4::new_from_col_array(&array),
        Mat4 {
            a: 1, b: 5, c: 9, d: 13,
            e: 2, f: 6, g: 10, h: 14,
            i: 3, j: 7, k: 11, l: 15,
            m: 4, n: 8, o: 12, p: 16,
        }
    );
}

#[test]
fn mat4_to_array() {
    let mat4 = Mat4 {
        a: 1, b: 2, c: 3, d: 4,
        e: 5, f: 6, g: 7, h: 8,
        i: 9, j: 10, k: 11, l: 12,
        m: 13, n: 14, o: 15, p: 16,
    };
    let array: [i64; 16] = mat4.to_array();
    assert_eq!(array, [1, 2, 3, 4, 5, 6, 7, 8, 9, 10, 11, 12, 13, 14, 15, 16]);
}

#[test]
fn mat4_to_col_array() {
    let mat4 = Mat4 {
        a: 1, b: 2, c: 3, d: 4,
        e: 5, f: 6, g: 7, h: 8,
        i: 9, j: 10, k: 11, l: 12,
        m: 13, n: 14, o: 15, p: 16,
    };
    let array: [i64; 16] = mat4.to_col_array();
    assert_eq!(array, [1, 5, 9, 13, 2, 6, 10, 14, 3, 7, 11, 15, 4, 8, 12, 16]);
}

#[test]
fn mat4_to_vec4_array() {
    let mat4 = Mat4 {
        a: 1, b: 2, c: 3, d: 4,
        e: 5, f: 6, g: 7, h: 8,
        i: 9, j: 10, k: 11, l: 12,
        m: 13, n: 14, o: 15, p: 16,
    };
    let array: [Vec4; 4] = [
        Vec4 { x: 1, y: 5, z: 9, w: 13 },
        Vec4 { x: 2, y: 6, z: 10, w: 14 },
        Vec4 { x: 3, y: 7, z: 11, w: 15 },
        Vec4 { x: 4, y: 8, z: 12, w: 16 },
    ];
    assert_eq!(mat4.to_vec4_array(), array);
}

#[test]
fn get_determinant_of_mat4() {
    let array: [i64; 16] = [8, 12, 20, -4, 28, 4, 8, 0, 20, 4, 0, 10, 32, 4, 4, 13];
    let mat4 = Mat4::new_from_array(&array);
    assert_eq!(mat4.determinant(), 16128);
}

#[test]
fn mat4_get_determinant_equal_to_zero() {
    let array: [i64; 16] = [1, 2, 3, 4, 2, 4, 6, 8, 1, 3, 4, 7, 12, 2, 4, -3];
    let mat4 = Mat4::new_from_array(&array);
    assert_eq!(mat4.determinant(), 0);
}

#[test]
fn mat4_multiply_by_identity() {
    let array: [i64; 16] = [1, 8, 2, 3, 10, 4, 4, 10, 3, 6, 7, 0, 7, 4, 2, 1];
    let mat4 = Mat4::new_from_array(&array);
    let iden = Mat4::identity();
    assert_eq!(mat4.multiply(&iden), mat4);
}

#[test]
fn mat4_multiplication() {
    let array: [i64; 16] = [-8, -7, -6, -5, -4, -3, -2, -1, 1, 2, 3, 4, 5, 6, 7, 8];
    let mat4 = Mat4::new_from_array(&array);
    let other_array: [i64; 16] = [1, 10, 8, 0, -6, -1, -5, -4, 14, 15, 14, 2, -8, -4, 7, 2];
    let other_mat4 = Mat4::new_from_array(&other_array);
    assert_eq!(
        mat4.multiply(&other_mat4),
        Mat4 {
            a: -10, b: -143, c: -148, d: 6,
            e: -6, f: -63, g: -52, h: 6,
            i: -1, j: 37, k: 68, l: 6,
            m: 3, n: 117, o: 164, p: 6,
        }
    );
}

#[test]
fn mat4_scalar_multiplication() {
    let scalar: i64 = 2;
    let array: [i64; 16] = [-8, -7, -6, -5, -4, -3, -2, -1, 1, 2, 3, 4, 5, 6, 7, 8];
    let mat4 = Mat4::new_from_array(&array);
    assert_eq!(
        mat4.scale(scalar),
        Mat4 {
            a: -16, b: -14, c: -12, d: -10,
            e: -8, f: -6, g: -4, h: -2,
            i: 2, j: 4, k: 6, l: 8,
            m: 10, n: 12, o: 14, p: 16,
        }
    );
}

#[test]
fn multiply_mat4_by_vec4() {
    let array: [i64; 16] = [1, 8, 2, 3, 10, 4, 4, 10, 3, 6, 7, 0, 7, 4, 2, 1];
    let mat4 = Mat4::new_from_array(&array);
    let vec4 = Vec4::new_from_values(&8, &5, &0, &5);
    assert_eq!(
        mat4.multiply_vec4(&vec4),
        Vec4::new_from_values(&63, &150, &54, &81)
    );
}

#[test]
fn mat4_transpose() {
    let mat4 = Mat4 {
        a: 1, b: 2, c: 3, d: 4,
        e: 5, f: 6, g: 7, h: 8,
        i: 9, j: 10, k: 11, l: 12,
        m: 13, n: 14, o: 15, p: 16,
    };
    assert_eq!(
        mat4.transpose(),
        Mat4 {
            a: 1, b: 5, c: 9, d: 13,
            e: 2, f: 6, g: 10, h: 14,
            i: 3, j: 7, k: 11, l: 15,
            m: 4, n: 8, o: 12, p: 16,
        }
    );
}
