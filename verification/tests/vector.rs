use render_core::math::scalar::add_mul3;
use render_core::math::scalar::dot3;
use render_core::math::scalar::dot4;
use render_core::math::scalar::mul3;
use render_core::math::scalar::mul3_add_mul;
use render_core::math::scalar::mul3_sub_mul;
use render_core::math::scalar::mul_sub;
use render_core::math::scalar::one;
use render_core::math::scalar::zero;
use render_core::math::vector3::Vector3;
use render_core::math::vector4::Vector4;

#[test]
fn constants_are_zero_and_one() {
    assert_eq!(zero::<f32>(), 0.0);
    assert_eq!(one::<f32>(), 1.0);
    assert_eq!(zero::<f64>(), 0.0);
    assert_eq!(one::<f64>(), 1.0);
    assert_eq!(zero::<i32>(), 0);
    assert_eq!(one::<i64>(), 1);
}

#[test]
fn scalar_chains() {
    assert_eq!(mul_sub(3, 4, 5, 6), -18);
    assert_eq!(dot3(1, 2, 3, 4, 5, 6), 44);
    assert_eq!(dot4(1, 2, 3, 4, 5, 6, 7, 8), 100);
    assert_eq!(dot4(0.5f32, 2.0, 0.25, 4.0, 1.0, 1.0, 2.0, 0.5), 4.0);
    assert_eq!(mul3(2, 3, 4), 24);
    assert_eq!(add_mul3(1, 2, 3, 4), 25);
    assert_eq!(mul3_sub_mul(1, 2, 3, 4, 5), -14);
    assert_eq!(mul3_add_mul(1, 2, 3, 4, 5), 26);
    assert_eq!(mul3_sub_mul(0.5f64, 4.0, 0.25, 3.0, 0.5), -1.0);
}

#[test]
fn sums_run_left_to_right() {
    let big = 1.0e30f32;
    assert_eq!(dot3(big, 1.0, -big, 1.0, 1.0, 1.0), 1.0);
    assert_eq!(dot3(1.0, 1.0, big, 1.0, -big, 1.0), 0.0);
}

#[test]
fn vector3_new_and_fields() {
    let v = Vector3::new(1.0f32, 2.0, 3.0);
    assert_eq!(v.x, 1.0);
    assert_eq!(v.y, 2.0);
    assert_eq!(v.z, 3.0);
}

#[test]
fn vector3_operators() {
    let a = Vector3::new(1, 2, 3);
    let b = Vector3::new(4, 6, 9);
    assert_eq!(a + b, Vector3::new(5, 8, 12));
    assert_eq!(b - a, Vector3::new(3, 4, 6));
    assert_eq!(-a, Vector3::new(-1, -2, -3));
    assert_eq!(b / 2, Vector3::new(2, 3, 4));
    assert_eq!(Vector3::new(1.0f32, 3.0, 5.0) / 2.0, Vector3::new(0.5, 1.5, 2.5));
}

#[test]
fn vector3_dot() {
    assert_eq!(Vector3::new(1, 2, 3).dot(Vector3::new(4, 5, 6)), 32);
    assert_eq!(Vector3::new(1.0f64, 0.0, 0.0).dot(Vector3::new(0.0, 1.0, 0.0)), 0.0);
}

#[test]
fn vector3_cross() {
    let x = Vector3::new(1.0f32, 0.0, 0.0);
    let y = Vector3::new(0.0f32, 1.0, 0.0);
    let z = Vector3::new(0.0f32, 0.0, 1.0);
    assert_eq!(x.cross(y), z);
    assert_eq!(y.cross(z), x);
    assert_eq!(z.cross(x), y);
    assert_eq!(y.cross(x), -z);
    assert_eq!(Vector3::new(1, 2, 3).cross(Vector3::new(4, 5, 6)), Vector3::new(-3, 6, -3));
}

#[test]
fn vector3_cross_of_parallel_vanishes() {
    let a = Vector3::new(2, 4, 6);
    assert_eq!(a.cross(Vector3::new(1, 2, 3)), Vector3::new(0, 0, 0));
}

#[test]
fn vector3_normalize() {
    let v = Vector3::new(3.0f32, 0.0, 4.0).normalize(&|x: f32| x.sqrt());
    assert_eq!(v, Vector3::new(0.6, 0.0, 0.8));
    let w = Vector3::new(0.0f64, -2.0, 0.0).normalize(&|x: f64| x.sqrt());
    assert_eq!(w, Vector3::new(0.0, -1.0, 0.0));
}

#[test]
fn vector3_normalize_uses_the_given_root() {
    let v = Vector3::new(4, 6, 8).normalize(&|_: i32| 2);
    assert_eq!(v, Vector3::new(2, 3, 4));
}

#[test]
fn vector4_new_and_dot() {
    let a = Vector4::new(1, 2, 3, 4);
    let b = Vector4::new(5, 6, 7, 8);
    assert_eq!(a.dot(b), 70);
    assert_eq!(a.w, 4);
}

#[test]
fn lift_sets_w_to_one() {
    let h = Vector4::from(Vector3::new(2.0f32, 3.0, 4.0));
    assert_eq!(h, Vector4::new(2.0, 3.0, 4.0, 1.0));
}

#[test]
fn project_drops_w_without_dividing() {
    let p = Vector3::from(Vector4::new(2.0f32, 4.0, 6.0, 2.0));
    assert_eq!(p, Vector3::new(2.0, 4.0, 6.0));
}

#[test]
fn vector4_from_array() {
    assert_eq!(Vector4::from([1, 2, 3, 4]), Vector4::new(1, 2, 3, 4));
}
