use matriarch::Vec2;
use matriarch::Vec3;

#[test]
fn create_new_vec2() {
    assert_eq!(Vec2::new(), Vec2 { x: 0, y: 0 });
}

#[test]
fn create_new_vec2_from_values() {
    let x: i64 = 0;
    let y: i64 = 1;
    let vec = Vec2::new_from_values(&x, &y);
    assert_eq!(vec, Vec2 { x, y });
}

#[test]
fn create_new_vec2_from_array() {
    let input_array: [i64; 2] = [1, 2];
    let vec = Vec2::new_from_array(&input_array);
    assert_eq!(vec, Vec2 { x: 1, y: 2 });
}

#[test]
fn get_vec2_as_array() {
    let vec = Vec2 { x: 1, y: 3 };
    let array: [i64; 2] = vec.to_array();
    assert_eq!(array, [1, 3]);
}

#[test]
fn vec2_get_cross_product() {
    let v1 = Vec2 { x: 2, y: 4 };
    let v2 = Vec2 { x: 3, y: 1 };
    assert_eq!(v1.cross_product(&v2), Vec3 { x: 0, y: 0, z: -10 });
}

#[test]
fn get_vec2_length() {
    let vec2 = Vec2 { x: 3, y: 4 };
    assert_eq!(vec2.length(), 5);
}

#[test]
fn vec2_length_rounds_down() {
    let vec2 = Vec2 { x: 1, y: 1 };
    assert_eq!(vec2.length(), 1);
    assert_eq!(Vec2 { x: 0, y: 0 }.length(), 0);
}

#[test]
fn add_2_vec2s_together() {
    let v1 = Vec2 { x: 1, y: 0 };
    let v2 = Vec2 { x: 0, y: 1 };
    let v3 = v1.add(&v2);
    assert_eq!(v3, Vec2 { x: 1, y: 1 });
}

#[test]
fn add_assign_2_vec2s() {
    let mut v1 = Vec2 { x: 1, y: 0 };
    let v2 = Vec2 { x: 0, y: 1 };
    v1.add_assign(&v2);
    assert_eq!(v1, Vec2 { x: 1, y: 1 });
}

#[test]
fn multiply_a_vec2_by_a_scalar() {
    let c: i64 = 2;
    let v1 = Vec2 { x: 1, y: 3 };
    assert_eq!(v1.scale(c), Vec2 { x: 2, y: 6 });
}

#[test]
fn vec2_get_dot_product() {
    let vec1 = Vec2 { x: 3, y: 2 };
    let vec2 = Vec2 { x: 3, y: 4 };
    assert_eq!(vec1.dot(&vec2), 17);
}

#[test]
fn get_a_negative_vec2() {
    let v1 = Vec2 { x: 0, y: 2 };
    assert_eq!(v1.negate(), Vec2 { x: 0, y: -2 });
}

#[test]
fn subtract_2_vec2s() {
    let v1 = Vec2 { x: 1, y: 2 };
    let v2 = Vec2 { x: 1, y: 1 };
    let v3 = v1.subtract(&v2);
    assert_eq!(v3, Vec2 { x: 0, y: 1 });
}

#[test]
fn subtract_assign_2_vec2s() {
    let mut v1 = Vec2 { x: 1, y: 2 };
    let v2 = Vec2 { x: 1, y: 1 };
    v1.subtract_assign(&v2);
    assert_eq!(v1, Vec2 { x: 0, y: 1 });
}
