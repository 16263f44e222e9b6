use matriarch::Vec3;

#[test]
fn create_new_vec3() {
    assert_eq!(Vec3::new(), Vec3 { x: 0, y: 0, z: 0 });
}

#[test]
fn create_new_vec3_from_values() {
    let x: i64 = 0;
    let y: i64 = 1;
    let z: i64 = 2;
    let vec = Vec3::new_from_values(&x, &y, &z);
    assert_eq!(vec, Vec3 { x, y, z });
}

#[test]
fn create_new_vec3_from_array() {
    let input_array: [i64; 3] = [1, 2, 5];
    let vec = Vec3::new_from_array(&input_array);
    assert_eq!(vec, Vec3 { x: 1, y: 2, z: 5 });
}

#[test]
fn get_vec3_as_array() {
    let vec = Vec3 { x: 1, y: 3, z: 5 };
    let array: [i64; 3] = vec.to_array();
    assert_eq!(array, [1, 3, 5]);
}

#[test]
fn vec3_get_cross_product() {
    let v1 = Vec3 { x: 2, y: 4, z: 0 };
    let v2 = Vec3 { x: 3, y: 1, z: 4 };
    assert_eq!(v1.cross_product(&v2), Vec3 { x: 16, y: -8, z: -10 });
}

#[test]
fn get_vec3_length() {
    let vec3 = Vec3 { x: 2, y: 3, z: 6 };
    assert_eq!(vec3.length(), 7);
}

#[test]
fn vec3_length_rounds_down() {
    let vec3 = Vec3 { x: 1, y: 1, z: 1 };
    assert_eq!(vec3.length(), 1);
    assert_eq!(Vec3 { x: 0, y: 0, z: 0 }.length(), 0);
}

#[test]
fn add_2_vec3s_together() {
    let v1 = Vec3 { x: 1, y: 0, z: 2 };
    let v2 = Vec3 { x: 0, y: 1, z: -1 };
    let v3 = v1.add(&v2);
    assert_eq!(v3, Vec3 { x: 1, y: 1, z: 1 });
}

#[test]
fn add_assign_2_vec3s() {
    let mut v1 = Vec3 { x: 1, y: 0, z: 2 };
    let v2 = Vec3 { x: 0, y: 1, z: 3 };
    v1.add_assign(&v2);
    assert_eq!(v1, Vec3 { x: 1, y: 1, z: 5 });
}

#[test]
fn multiply_a_vec3_by_a_scalar() {
    let c: i64 = 2;
    let v1 = Vec3 { x: 1, y: 3, z: 7 };
    assert_eq!(v1.scale(c), Vec3 { x: 2, y: 6, z: 14 });
}

#[test]
fn vec3_get_dot_product() {
    let vec1 = Vec3 { x: 3, y: 2, z: 2 };
    let vec2 = Vec3 { x: 3, y: 4, z: 4 };
    assert_eq!(vec1.dot(&vec2), 25);
}

#[test]
fn get_a_negative_vec3() {
    let v1 = Vec3 { x: 0, y: 2, z: -1 };
    assert_eq!(v1.negate(), Vec3 { x: 0, y: -2, z: 1 });
}

#[test]
fn subtract_2_vec3s() {
    let v1 = Vec3 { x: 1, y: 2, z: 2 };
    let v2 = Vec3 { x: 1, y: 1, z: 3 };
    let v3 = v1.subtract(&v2);
    assert_eq!(v3, Vec3 { x: 0, y: 1, z: -1 });
}

#[test]
fn subtract_assign_2_vec3s() {
    let mut v1 = Vec3 { x: 1, y: 2, z: 1 };
    let v2 = Vec3 { x: 1, y: 1, z: 2 };
    v1.subtract_assign(&v2);
    assert_eq!(v1, Vec3 { x: 0, y: 1, z: -1 });
}
