use rand::rngs::StdRng;
use rand::Rng;
use rand::SeedableRng;
use render_core::film::Defect;
use render_core::film::Film;
use render_core::math::vector3::Vector3;
use std::cell::Cell;
use std::cell::RefCell;

fn lift32(n: usize) -> f32 {
    n as f32
}

#[test]
fn new_fills_every_sample() {
    let film = Film::new(7u32, 4, 2);
    assert_eq!(film.data.len(), 8);
    assert!(film.data.iter().all(|s| *s == 7));
    assert_eq!(film.width, 4);
    assert_eq!(film.height, 2);
}

#[test]
fn new_single_pixel() {
    let film = Film::new('x', 1, 1);
    assert_eq!(film.data, vec!['x']);
    assert_eq!(*film.get(0, 0), 'x');
}

#[test]
fn get_returns_fill_everywhere() {
    let film = Film::new(2.5f64, 5, 3);
    for y in 0..3 {
        for x in 0..5 {
            assert_eq!(*film.get(x, y), 2.5);
        }
    }
}

#[test]
fn get_reads_row_major() {
    let mut film = Film::new(0usize, 4, 3);
    for i in 0..12 {
        film.data[i] = i;
    }
    assert_eq!(*film.get(0, 0), 0);
    assert_eq!(*film.get(3, 0), 3);
    assert_eq!(*film.get(0, 1), 4);
    assert_eq!(*film.get(2, 1), 6);
    assert_eq!(*film.get(3, 2), 11);
}

#[test]
fn index_round_trip() {
    for (w, h) in [(4usize, 2usize), (7, 5), (1, 9), (9, 1)] {
        let film = Film::new(0u8, w, h);
        let mut seen = vec![false; w * h];
        for i in 0..w * h {
            let (x, band) = film.cell(i);
            assert!(x < w);
            assert!(band < h);
            let y = h - 1 - band;
            assert_eq!(y * w + x, i);
            assert_eq!(x, i % w);
            assert_eq!(y, i / w);
            assert!(!seen[y * w + x]);
            seen[y * w + x] = true;
        }
        assert!(seen.iter().all(|s| *s));
    }
}

#[test]
fn cell_flips_rows() {
    let film = Film::new(0u8, 3, 4);
    assert_eq!(film.cell(0), (0, 3));
    assert_eq!(film.cell(2), (2, 3));
    assert_eq!(film.cell(3), (0, 2));
    assert_eq!(film.cell(11), (2, 0));
}

#[test]
fn end_to_end_example() {
    let mut film = Film::new(0.0f32, 4, 2);
    assert_eq!(film.data.len(), 8);
    film.data[1 * 4 + 2] = 9.0;
    assert_eq!(*film.get(2, 1), 9.0);
    assert_eq!(film.cell(6), (2, 0));
    let (u, v) = film.uv(6, &lift32, &|| 0.0f32);
    assert_eq!(u, 0.5);
    assert_eq!(v, 0.0);
}

#[test]
fn uv_of_top_left_pixel_without_jitter() {
    let film = Film::new(0.0f32, 4, 2);
    let (u, v) = film.uv(0, &lift32, &|| 0.0f32);
    assert_eq!(u, 0.0);
    assert_eq!(v, 0.5);
}

#[test]
fn uv_draws_su_then_sv() {
    let film = Film::new(0u8, 4, 2);
    let calls = Cell::new(0u32);
    let jitter = || {
        calls.set(calls.get() + 1);
        if calls.get() == 1 {
            0.25f64
        } else {
            0.75f64
        }
    };
    let (u, v) = film.uv(5, &|n| n as f64, &jitter);
    assert_eq!(calls.get(), 2);
    assert_eq!(u, (1.0 + 0.25) / 4.0);
    assert_eq!(v, (0.0 + 0.75) / 2.0);
}

#[test]
fn uv_jitter_stays_in_cell() {
    let w = 6usize;
    let h = 4usize;
    let film = Film::new(0u8, w, h);
    let rng = RefCell::new(StdRng::seed_from_u64(17));
    let jitter = || rng.borrow_mut().gen::<f32>();
    for index in 0..w * h {
        let x = index % w;
        let y = index / w;
        for _ in 0..200 {
            let (u, v) = film.uv(index, &lift32, &jitter);
            assert!(u >= x as f32 / w as f32);
            assert!(u < (x + 1) as f32 / w as f32);
            assert!(v >= (h - y - 1) as f32 / h as f32);
            assert!(v < (h - y) as f32 / h as f32);
            assert!((0.0..1.0).contains(&u));
            assert!((0.0..1.0).contains(&v));
        }
    }
}

#[test]
fn uv_is_not_memoized() {
    let film = Film::new(0u8, 8, 8);
    let rng = RefCell::new(StdRng::seed_from_u64(5));
    let jitter = || rng.borrow_mut().gen::<f32>();
    let first = film.uv(9, &lift32, &jitter);
    let mut differs = false;
    for _ in 0..16 {
        if film.uv(9, &lift32, &jitter) != first {
            differs = true;
        }
    }
    assert!(differs);
}

#[test]
fn uv_row_zero_is_the_highest_band() {
    let film = Film::new(0u8, 2, 3);
    let (_, top) = film.uv(0, &lift32, &|| 0.0f32);
    let (_, middle) = film.uv(2, &lift32, &|| 0.0f32);
    let (_, bottom) = film.uv(4, &lift32, &|| 0.0f32);
    assert!(top > middle);
    assert!(middle > bottom);
    assert_eq!(bottom, 0.0);
}

#[test]
fn uv_on_integers_divides_exactly() {
    let film = Film::new(0u8, 4, 2);
    let (u, v) = film.uv(3, &|n| n as i64, &|| 1i64);
    assert_eq!(u, 1);
    assert_eq!(v, 1);
}

#[test]
fn aspect_is_width_over_height() {
    assert_eq!(Film::new(0u8, 4, 2).aspect(&lift32), 2.0);
    assert_eq!(Film::new(0u8, 3, 4).aspect(&|n| n as f64), 0.75);
    assert_eq!(Film::new(0u8, 1920, 1080).aspect(&lift32), 1920.0f32 / 1080.0f32);
    assert_eq!(Film::new(0u8, 9, 2).aspect(&|n| n as i32), 4);
}

#[test]
fn first_where_finds_the_first() {
    let mut film = Film::new(0i32, 3, 2);
    film.data[2] = -1;
    film.data[4] = -5;
    assert_eq!(film.first_where(&|s: &i32| *s < 0), Some(2));
    assert_eq!(film.first_where(&|s: &i32| *s < -1), Some(4));
    assert_eq!(film.first_where(&|s: &i32| *s > 0), None);
    assert_eq!(film.first_where(&|s: &i32| *s == 0), Some(0));
}

#[test]
fn validate_accepts_finite_samples() {
    let film = Film::new(1.5f32, 3, 3);
    assert_eq!(film.validate(&|s: &f32| s.is_nan(), &|s: &f32| s.is_infinite()), Ok(()));
}

#[test]
fn validate_reports_nan() {
    let mut film = Film::new(1.5f32, 3, 3);
    film.data[8] = f32::NAN;
    assert_eq!(
        film.validate(&|s: &f32| s.is_nan(), &|s: &f32| s.is_infinite()),
        Err(Defect::Nan)
    );
}

#[test]
fn validate_reports_infinite() {
    let mut film = Film::new(1.5f64, 3, 3);
    film.data[0] = f64::NEG_INFINITY;
    assert_eq!(
        film.validate(&|s: &f64| s.is_nan(), &|s: &f64| s.is_infinite()),
        Err(Defect::Infinite)
    );
}

#[test]
fn validate_reports_nan_before_infinite() {
    let mut film = Film::new(0.0f32, 2, 2);
    film.data[0] = f32::INFINITY;
    film.data[3] = f32::NAN;
    assert_eq!(
        film.validate(&|s: &f32| s.is_nan(), &|s: &f32| s.is_infinite()),
        Err(Defect::Nan)
    );
}

#[test]
fn validate_scans_radiance_triples() {
    let is_nan = |v: &Vector3<f32>| v.x.is_nan() || v.y.is_nan() || v.z.is_nan();
    let is_infinite =
        |v: &Vector3<f32>| v.x.is_infinite() || v.y.is_infinite() || v.z.is_infinite();
    let mut film = Film::new(Vector3::new(0.25f32, 0.5, 1.0), 2, 2);
    assert_eq!(film.validate(&is_nan, &is_infinite), Ok(()));
    film.data[1].z = f32::INFINITY;
    assert_eq!(film.validate(&is_nan, &is_infinite), Err(Defect::Infinite));
    film.data[2].y = f32::NAN;
    assert_eq!(film.validate(&is_nan, &is_infinite), Err(Defect::Nan));
}
