use render_core::math::grid::grid;
use render_core::math::matrix4::Matrix4;
use render_core::math::vector3::Vector3;
use render_core::math::vector4::Vector4;

fn close(a: &Matrix4<f32>, b: &Matrix4<f32>, tolerance: f32) -> bool {
    let a = a.to_array();
    let b = b.to_array();
    (0..16).all(|i| (a[i] - b[i]).abs() <= tolerance)
}

fn near(a: Vector3<f32>, b: Vector3<f32>, tolerance: f32) -> bool {
    (a.x - b.x).abs() <= tolerance && (a.y - b.y).abs() <= tolerance && (a.z - b.z).abs() <= tolerance
}

fn counting() -> Matrix4<i64> {
    Matrix4::new([1, 2, 3, 4, 5, 6, 7, 8, 9, 10, 11, 12, 13, 14, 15, 16])
}

fn sample_a() -> Matrix4<f32> {
    Matrix4::new([
        0.5, -1.25, 2.0, 3.5, 4.0, 0.125, -6.0, 7.5, 8.25, 9.0, -0.75, 1.0, -2.5, 3.0, 0.0, 1.5,
    ])
}

fn sample_b() -> Matrix4<f32> {
    Matrix4::new([
        1.0, 0.5, -0.5, 2.0, -3.0, 1.5, 0.25, 0.0, 2.0, -1.0, 4.0, 0.75, 0.5, 0.5, -2.0, 1.0,
    ])
}

fn sample_c() -> Matrix4<f32> {
    Matrix4::new([
        -1.0, 2.0, 0.0, 0.5, 0.75, -0.25, 1.0, 3.0, 0.0, 1.25, -2.0, 0.5, 1.0, 0.0, 0.5, -1.5,
    ])
}

#[test]
fn new_keeps_entries_row_major() {
    let m = counting();
    assert_eq!(m.to_array(), [1, 2, 3, 4, 5, 6, 7, 8, 9, 10, 11, 12, 13, 14, 15, 16]);
    assert_eq!(m.at(0, 0), 1);
    assert_eq!(m.at(0, 3), 4);
    assert_eq!(m.at(1, 0), 5);
    assert_eq!(m.at(3, 3), 16);
}

#[test]
fn zero_is_all_zeros() {
    assert_eq!(Matrix4::<f32>::zero().to_array(), [0.0; 16]);
}

#[test]
fn unit_is_the_identity() {
    assert_eq!(
        Matrix4::<f32>::unit().to_array(),
        [1.0, 0.0, 0.0, 0.0, 0.0, 1.0, 0.0, 0.0, 0.0, 0.0, 1.0, 0.0, 0.0, 0.0, 0.0, 1.0]
    );
}

#[test]
fn unit_is_neutral() {
    let m = counting();
    assert_eq!(m * Matrix4::unit(), m);
    assert_eq!(Matrix4::unit() * m, m);
    assert_eq!(sample_a() * Matrix4::unit(), sample_a());
    assert_eq!(Matrix4::unit() * sample_a(), sample_a());
}

#[test]
fn translate_puts_the_vector_in_the_last_column() {
    assert_eq!(
        Matrix4::translate(Vector3::new(7.0f32, 8.0, 9.0)).to_array(),
        [1.0, 0.0, 0.0, 7.0, 0.0, 1.0, 0.0, 8.0, 0.0, 0.0, 1.0, 9.0, 0.0, 0.0, 0.0, 1.0]
    );
}

#[test]
fn scale_puts_the_vector_on_the_diagonal() {
    assert_eq!(
        Matrix4::scale(Vector3::new(2.0f32, 3.0, 4.0)).to_array(),
        [2.0, 0.0, 0.0, 0.0, 0.0, 3.0, 0.0, 0.0, 0.0, 0.0, 4.0, 0.0, 0.0, 0.0, 0.0, 1.0]
    );
}

#[test]
fn from_axes_fills_columns() {
    let m = Matrix4::from([Vector3::new(1, 2, 3), Vector3::new(4, 5, 6), Vector3::new(7, 8, 9)]);
    assert_eq!(m.to_array(), [1, 4, 7, 0, 2, 5, 8, 0, 3, 6, 9, 0, 0, 0, 0, 1]);
}

#[test]
fn transpose_swaps_rows_and_columns() {
    assert_eq!(
        counting().transpose().to_array(),
        [1, 5, 9, 13, 2, 6, 10, 14, 3, 7, 11, 15, 4, 8, 12, 16]
    );
}

#[test]
fn transpose_twice_is_exact() {
    for m in [sample_a(), sample_b(), sample_c()] {
        assert_eq!(m.transpose().transpose().to_array(), m.to_array());
    }
    let odd = Matrix4::new([
        f32::MAX,
        f32::MIN_POSITIVE,
        -0.0,
        0.0,
        1e-30,
        1e30,
        f32::INFINITY,
        f32::NEG_INFINITY,
        0.1,
        0.2,
        0.3,
        0.7,
        -1.0,
        -2.0,
        -3.0,
        f32::EPSILON,
    ]);
    let back = odd.transpose().transpose().to_array();
    let odd = odd.to_array();
    for i in 0..16 {
        assert_eq!(back[i].to_bits(), odd[i].to_bits());
    }
}

#[test]
fn negation_is_entrywise() {
    assert_eq!(
        (-counting()).to_array(),
        [-1, -2, -3, -4, -5, -6, -7, -8, -9, -10, -11, -12, -13, -14, -15, -16]
    );
}

#[test]
fn addition_and_subtraction_are_entrywise() {
    let m = counting();
    let t = m.transpose();
    assert_eq!(
        (m + t).to_array(),
        [2, 7, 12, 17, 7, 12, 17, 22, 12, 17, 22, 27, 17, 22, 27, 32]
    );
    assert_eq!(
        (m - t).to_array(),
        [0, -3, -6, -9, 3, 0, -3, -6, 6, 3, 0, -3, 9, 6, 3, 0]
    );
    assert_eq!((sample_a() - sample_a()).to_array(), [0.0; 16]);
}

#[test]
fn product_is_rows_times_columns() {
    let m = counting();
    assert_eq!(
        (m * m).to_array(),
        [90, 100, 110, 120, 202, 228, 254, 280, 314, 356, 398, 440, 426, 484, 542, 600]
    );
}

#[test]
fn product_is_not_commutative() {
    let t = Matrix4::translate(Vector3::new(1, 0, 0));
    let s = Matrix4::scale(Vector3::new(2, 2, 2));
    assert_eq!((t * s).at(0, 3), 1);
    assert_eq!((s * t).at(0, 3), 2);
    assert!(t * s != s * t);
}

#[test]
fn product_is_associative_on_integers() {
    let a = counting();
    let b = counting().transpose() - Matrix4::unit();
    let c = Matrix4::new([2, 0, -1, 3, 1, 1, 0, -2, 0, 4, 5, 1, -3, 2, 2, 0]);
    assert_eq!((a * b) * c, a * (b * c));
}

#[test]
fn product_is_associative_within_tolerance() {
    let a = sample_a();
    let b = sample_b();
    let c = sample_c();
    assert!(close(&((a * b) * c), &(a * (b * c)), 1e-3));
}

#[test]
fn translate_then_back_is_the_identity() {
    let v = Vector3::new(3.5f32, -120.25, 0.001);
    assert!(close(&(Matrix4::translate(v) * Matrix4::translate(-v)), &Matrix4::unit(), 1e-6));
    assert!(close(&(Matrix4::translate(-v) * Matrix4::translate(v)), &Matrix4::unit(), 1e-6));
    let w = Vector3::new(5i64, -7, 11);
    assert_eq!(Matrix4::translate(w) * Matrix4::translate(-w), Matrix4::unit());
}

#[test]
fn rotation_by_zero_is_the_identity() {
    let angle = 0.0f32;
    for axis in [
        Vector3::new(1.0f32, 0.0, 0.0),
        Vector3::new(0.0, 1.0, 0.0),
        Vector3::new(0.0, 0.0, 1.0),
        Vector3::new(0.6, 0.0, 0.8),
        Vector3::new(1.0, 1.0, 1.0).normalize(&|x: f32| x.sqrt()),
    ] {
        let r = Matrix4::axis_angle(axis, angle.cos(), angle.sin());
        assert!(close(&r, &Matrix4::unit(), 1e-6));
    }
    assert_eq!(Matrix4::axis_angle(Vector3::new(0, 0, 1), 1, 0), Matrix4::unit());
}

#[test]
fn quarter_turn_about_z() {
    let r = Matrix4::axis_angle(Vector3::new(0, 0, 1), 0, 1);
    assert_eq!(r.to_array(), [0, -1, 0, 0, 1, 0, 0, 0, 0, 0, 1, 0, 0, 0, 0, 1]);
    assert_eq!(r * Vector3::new(1, 0, 0), Vector3::new(0, 1, 0));
    assert_eq!(r * Vector3::new(0, 1, 0), Vector3::new(-1, 0, 0));
}

#[test]
fn rodrigues_entries() {
    let a = Vector3::new(2.0f32, 3.0, 5.0);
    let c = 0.5f32;
    let s = 0.25f32;
    let t = 1.0 - c;
    let r = Matrix4::axis_angle(a, c, s).to_array();
    assert_eq!(r[0], c + a.x * a.x * t);
    assert_eq!(r[1], a.x * a.y * t - a.z * s);
    assert_eq!(r[2], a.x * a.z * t + a.y * s);
    assert_eq!(r[4], a.y * a.x * t + a.z * s);
    assert_eq!(r[5], c + a.y * a.y * t);
    assert_eq!(r[6], a.y * a.z * t - a.x * s);
    assert_eq!(r[8], a.z * a.x * t - a.y * s);
    assert_eq!(r[9], a.z * a.y * t + a.x * s);
    assert_eq!(r[10], c + a.z * a.z * t);
    assert_eq!([r[3], r[7], r[11], r[12], r[13], r[14], r[15]], [0.0, 0.0, 0.0, 0.0, 0.0, 0.0, 1.0]);
}

#[test]
fn rotation_about_a_unit_axis_keeps_the_axis() {
    let axis = Vector3::new(1.0f32, 2.0, -2.0).normalize(&|x: f32| x.sqrt());
    let angle = 1.1f32;
    let r = Matrix4::axis_angle(axis, angle.cos(), angle.sin());
    assert!(near(r * axis, axis, 1e-6));
}

#[test]
fn apply_lifts_multiplies_and_drops_w() {
    let t = Matrix4::translate(Vector3::new(10, 20, 30));
    assert_eq!(t * Vector3::new(1, 2, 3), Vector3::new(11, 22, 33));
    let s = Matrix4::scale(Vector3::new(2.0f32, 3.0, 4.0));
    assert_eq!(s * Vector3::new(1.0, 1.0, 1.0), Vector3::new(2.0, 3.0, 4.0));
}

#[test]
fn apply_makes_no_perspective_divide() {
    let m = Matrix4::new([1, 0, 0, 0, 0, 1, 0, 0, 0, 0, 1, 0, 0, 0, 0, 5]);
    assert_eq!(m * Vector3::new(10, 20, 30), Vector3::new(10, 20, 30));
}

#[test]
fn map_col_visits_rows_top_to_bottom() {
    let m = counting();
    assert_eq!(m.map_col(|row: Vector4<i64>| row.x), Vector4::new(1, 5, 9, 13));
    assert_eq!(m.map_col(|row: Vector4<i64>| row.w), Vector4::new(4, 8, 12, 16));
    assert_eq!(
        m.map_col(|row: Vector4<i64>| row.dot(Vector4::new(1, 1, 1, 1))),
        Vector4::new(10, 26, 42, 58)
    );
}

#[test]
fn look_at_maps_the_zero_point_to_the_origin() {
    let origin = Vector3::new(1.0f32, 2.0, 3.0);
    let m = Matrix4::look_at(
        origin,
        Vector3::new(-4.0, 0.5, 9.0),
        Vector3::new(0.0, 1.0, 0.0),
        |x: f32| x.sqrt(),
    );
    assert_eq!(m * Vector3::new(0.0, 0.0, 0.0), origin);
    assert_eq!([m.at(0, 3), m.at(1, 3), m.at(2, 3)], [1.0, 2.0, 3.0]);
    assert_eq!([m.at(3, 0), m.at(3, 1), m.at(3, 2), m.at(3, 3)], [0.0, 0.0, 0.0, 1.0]);
}

#[test]
fn look_at_looks_down_minus_z() {
    let origin = Vector3::new(1.0f32, 2.0, 3.0);
    let target = Vector3::new(1.0f32, 2.0, -7.0);
    let m = Matrix4::look_at(origin, target, Vector3::new(0.0, 1.0, 0.0), |x: f32| x.sqrt());
    assert!(near(m * Vector3::new(0.0, 0.0, -10.0), target, 1e-5));
    assert_eq!(
        m.to_array(),
        [1.0, 0.0, 0.0, 1.0, 0.0, 1.0, 0.0, 2.0, 0.0, 0.0, 1.0, 3.0, 0.0, 0.0, 0.0, 1.0]
    );
}

#[test]
fn look_at_builds_an_orthonormal_right_handed_basis() {
    let origin = Vector3::new(0.5f32, -1.0, 2.0);
    let target = Vector3::new(3.0f32, 4.0, -1.0);
    let m = Matrix4::look_at(origin, target, Vector3::new(0.0, 1.0, 0.0), |x: f32| x.sqrt());
    let x = Vector3::new(m.at(0, 0), m.at(1, 0), m.at(2, 0));
    let y = Vector3::new(m.at(0, 1), m.at(1, 1), m.at(2, 1));
    let z = Vector3::new(m.at(0, 2), m.at(1, 2), m.at(2, 2));
    assert!((x.dot(x) - 1.0).abs() < 1e-5);
    assert!((y.dot(y) - 1.0).abs() < 1e-5);
    assert!((z.dot(z) - 1.0).abs() < 1e-5);
    assert!(x.dot(y).abs() < 1e-5);
    assert!(y.dot(z).abs() < 1e-5);
    assert!(z.dot(x).abs() < 1e-5);
    assert!(near(x.cross(y), z, 1e-5));
    let forward = (target - origin).normalize(&|v: f32| v.sqrt());
    assert!(near(z, -forward, 1e-6));
}

#[test]
fn look_at_on_integers_with_a_given_root() {
    let m = Matrix4::look_at(
        Vector3::new(1, 2, 3),
        Vector3::new(1, 2, 2),
        Vector3::new(0, 1, 0),
        |_: i32| 1,
    );
    assert_eq!(m.to_array(), [1, 0, 0, 1, 0, 1, 0, 2, 0, 0, 1, 3, 0, 0, 0, 1]);
}

#[test]
fn grid_pads_each_cell_to_twelve() {
    let c: [String; 16] = [
        "1".to_string(),
        "0".to_string(),
        "0".to_string(),
        "3.5".to_string(),
        "0".to_string(),
        "1".to_string(),
        "0".to_string(),
        "-120.25".to_string(),
        "0".to_string(),
        "0".to_string(),
        "1".to_string(),
        "0.001".to_string(),
        "0".to_string(),
        "0".to_string(),
        "0".to_string(),
        "1".to_string(),
    ];
    let expected = "/            1            0            0          3.5 \\\n\
                    |            0            1            0      -120.25 |\n\
                    |            0            0            1        0.001 |\n\
                    \\            0            0            0            1 /";
    assert_eq!(grid(&c), expected);
}

#[test]
fn grid_keeps_long_cells_whole() {
    let mut c: [String; 16] = [
        String::new(),
        String::new(),
        String::new(),
        String::new(),
        String::new(),
        String::new(),
        String::new(),
        String::new(),
        String::new(),
        String::new(),
        String::new(),
        String::new(),
        String::new(),
        String::new(),
        String::new(),
        String::new(),
    ];
    c[0] = "123456789012".to_string();
    c[1] = "1234567890123456".to_string();
    c[2] = "\u{e9}t\u{e9}".to_string();
    let text = grid(&c);
    let first = text.lines().next().unwrap();
    assert_eq!(first, format!("/ 123456789012 1234567890123456 {:>12} {:>12} \\", "\u{e9}t\u{e9}", ""));
    assert_eq!(text.lines().count(), 4);
}

#[test]
fn render_matches_display_layout() {
    let m = Matrix4::translate(Vector3::new(3.5f32, -120.25, 0.001));
    let v = m.to_array();
    let expected = format!(
        "/ {:>12} {:>12} {:>12} {:>12} \\\n| {:>12} {:>12} {:>12} {:>12} |\n| {:>12} {:>12} {:>12} {:>12} |\n\\ {:>12} {:>12} {:>12} {:>12} /",
        v[0], v[1], v[2], v[3], v[4], v[5], v[6], v[7], v[8], v[9], v[10], v[11], v[12], v[13], v[14], v[15]
    );
    assert_eq!(m.render(&|x: f32| format!("{}", x)), expected);
    assert_eq!(counting().render(&|x: i64| x.to_string()).lines().count(), 4);
}

#[test]
fn a_non_unit_axis_gives_no_rotation() {
    let r = Matrix4::axis_angle(Vector3::new(2, 0, 0), 0, 1);
    assert_eq!(r.at(0, 0), 4);
    assert_eq!(r * Vector3::new(1, 0, 0), Vector3::new(4, 0, 0));
}

#[test]
fn look_at_with_up_along_the_view_has_no_basis() {
    let m = Matrix4::look_at(
        Vector3::new(0.0f32, 0.0, 0.0),
        Vector3::new(0.0f32, 0.0, -1.0),
        Vector3::new(0.0f32, 0.0, 1.0),
        |x: f32| x.sqrt(),
    );
    assert!(m.to_array().iter().any(|e| e.is_nan()));
}

#[test]
fn look_at_applied_to_its_origin_adds_the_rotated_origin() {
    let origin = Vector3::new(1.0f32, 2.0, 3.0);
    let target = Vector3::new(1.0f32, 2.0, -7.0);
    let m = Matrix4::look_at(origin, target, Vector3::new(0.0, 1.0, 0.0), |x: f32| x.sqrt());
    assert_eq!(m * origin, Vector3::new(2.0, 4.0, 6.0));
    assert_eq!(m * Vector3::new(0.0, 0.0, 0.0), origin);
}
