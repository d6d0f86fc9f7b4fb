use asteroids_core::collision::{axis_aligned_bounding_box_check, circle_collision};
use asteroids_core::fixed::{Fixed10, Fixed8};
use asteroids_core::rng::{RandomNumberGenerator, SEED};
use asteroids_core::score::{num_digits_iter, ScoreDisplay};
use asteroids_core::vector::Vector2D;

fn v(x: i32, y: i32) -> Vector2D {
    Vector2D::new(Fixed10::from_raw(x), Fixed10::from_raw(y))
}

fn screen() -> Vector2D {
    v(240 * 1024, 160 * 1024)
}

#[test]
fn rng_golden_sequence_from_seed() {
    let mut rng = RandomNumberGenerator::seeded();
    let expected = [
        -1547412789, 697205964, -106923119, 546168012, -74755699, -202638872, 1886688070,
        -1280977017, -1554114141, 2082513224,
    ];
    for e in expected {
        assert_eq!(rng.next(), e);
    }
}

#[test]
fn rng_state_after_one_draw() {
    let mut rng = RandomNumberGenerator::new(SEED);
    rng.next();
    assert_eq!(rng.state, [168144831, 3839272586, 4172847983, 3478708659]);
}

#[test]
fn rng_same_seed_same_stream() {
    let mut a = RandomNumberGenerator::new([1, 2, 3, 4]);
    let mut b = RandomNumberGenerator::new([1, 2, 3, 4]);
    for _ in 0..100 {
        assert_eq!(a.next(), b.next());
    }
}

#[test]
fn fixed_mul_rounds_down() {
    // 1.5 * 2.25 = 3.375
    let a = Fixed10::from_raw(1536);
    let b = Fixed10::from_raw(2304);
    assert_eq!(a.mul(b).raw, 3456);
    // -0.5 * 0.0009765625 = -1/2048, rounded down to -1/1024
    assert_eq!(Fixed10::from_raw(-512).mul(Fixed10::from_raw(1)).raw, -1);
    // a product whose unscaled form leaves the range of i32
    assert_eq!(Fixed10::from_raw(262144).mul(Fixed10::from_raw(262144)).raw, 67108864);
}

#[test]
fn fixed_rem_euclid_is_non_negative() {
    let m = Fixed10::from_int(4);
    assert_eq!(Fixed10::from_raw(-1536).rem_euclid(m).raw, 2560);
    assert_eq!(Fixed10::from_raw(5806).rem_euclid(m).raw, 1710);
    assert_eq!(Fixed10::from_raw(4096).rem_euclid(m).raw, 0);
}

#[test]
fn fixed_floor_and_truncating_ops() {
    assert_eq!(Fixed10::from_raw(5 * 1024 + 700).floor(), 5);
    assert_eq!(Fixed10::from_raw(-5 * 1024 - 700).floor(), -6);
    assert_eq!(Fixed10::from_raw(-1000).div_int(40).raw, -25);
    assert_eq!(Fixed10::from_raw(-1025).rem(Fixed10::from_int(1)).raw, -1);
    assert_eq!(Fixed8::from_int(1).div_int(50).raw, 5);
    assert_eq!(Fixed8::from_raw(3).change_base().raw, 12);
}

#[test]
fn cos_and_sin_at_quarter_turns() {
    let at = |raw: i32| Fixed8::from_raw(raw);
    assert_eq!(at(0).cos().raw, 256);
    assert_eq!(at(64).cos().raw, 0);
    assert_eq!(at(128).cos().raw, -256);
    assert_eq!(at(192).cos().raw, 0);
    assert_eq!(at(256).cos().raw, 256);
    assert_eq!(at(0).sin().raw, 0);
    assert_eq!(at(64).sin().raw, 256);
    assert_eq!(at(128).sin().raw, 0);
    assert_eq!(at(192).sin().raw, -256);
}

#[test]
fn sin_squared_plus_cos_squared_near_one() {
    for raw in 0..256 {
        let c = Fixed8::from_raw(raw).cos().raw;
        let s = Fixed8::from_raw(raw).sin().raw;
        let turn = raw as f64 / 256.0 * std::f64::consts::TAU;
        assert!((c as f64 - 256.0 * turn.cos()).abs() <= 1.0, "cos at {}", raw);
        assert!((s as f64 - 256.0 * turn.sin()).abs() <= 1.0, "sin at {}", raw);
        let sum = c * c + s * s;
        assert!((sum - 65536).abs() <= 2 * 2 * 256, "sum at {}", raw);
    }
}

#[test]
fn cos_is_sin_a_quarter_turn_later() {
    for raw in [-1000, -65, -64, -1, 0, 1, 63, 64, 100, 255, 1000, i32::MAX, i32::MIN] {
        let a = Fixed8::from_raw(raw);
        let later = a.wrapping_add(Fixed8::from_raw(64));
        assert_eq!(a.cos(), later.sin());
    }
}

#[test]
fn wrap_moves_into_field() {
    let mut p = v(-9 * 1024, 170 * 1024);
    p.wrap_to_bounds(16, screen());
    assert_eq!(p.x.raw, 247 * 1024);
    assert_eq!(p.y.raw, -6 * 1024);
}

#[test]
fn wrap_is_idempotent_and_in_range() {
    for (x, y) in [(-50000, 400000), (0, 0), (250 * 1024, -8192), (-4097, 163839), (123456, -98765)] {
        for size in [8, 16] {
            let mut p = v(x, y);
            p.wrap_to_bounds(size, screen());
            let once = p;
            p.wrap_to_bounds(size, screen());
            assert_eq!(p, once);
            let half = size / 2 * 1024;
            assert!(-half <= once.x.raw && once.x.raw < 240 * 1024 + size * 1024 - half);
            assert!(-half <= once.y.raw && once.y.raw < 160 * 1024 + size * 1024 - half);
        }
    }
}

#[test]
fn vector_add() {
    let mut a = v(1, -2);
    a.add_assign(v(10, 20));
    assert_eq!(a, v(11, 18));
    assert_eq!(v(5, 5).add(v(-6, 1)), v(-1, 6));
}

#[test]
fn circle_collision_boundary() {
    let r = Fixed10::from_int(12);
    let origin = v(0, 0);
    assert!(!circle_collision(v(12 * 1024, 0), origin, r));
    assert!(circle_collision(v(11 * 1024, 0), origin, r));
    assert!(circle_collision(v(12 * 1024 - 1, 0), origin, r));
    assert!(!circle_collision(v(0, -12 * 1024), origin, r));
    assert!(circle_collision(v(8 * 1024, 8 * 1024), origin, r));
    assert!(!circle_collision(v(9 * 1024, 9 * 1024), origin, r));
}

#[test]
fn bounding_boxes() {
    let s = v(8 * 1024, 8 * 1024);
    assert!(axis_aligned_bounding_box_check(v(0, 0), v(7 * 1024, 7 * 1024), s, s));
    assert!(!axis_aligned_bounding_box_check(v(0, 0), v(8 * 1024, 0), s, s));
}

#[test]
fn digits_least_significant_first() {
    assert_eq!(num_digits_iter(0), vec![0]);
    assert_eq!(num_digits_iter(7), vec![7]);
    assert_eq!(num_digits_iter(1203), vec![3, 0, 2, 1]);
    assert_eq!(num_digits_iter(u32::MAX).len(), 10);
}

#[test]
fn score_display_writes_digits_plus_one() {
    let mut d = ScoreDisplay::new();
    assert_eq!(d.map, [0; 10]);
    assert_eq!(d.set_score(123), 3);
    assert_eq!(&d.map[..3], &[2, 3, 4]);
    assert_eq!(d.set_score(0), 1);
    assert_eq!(&d.map[..3], &[1, 3, 4]);
    assert_eq!(d.set_score(u32::MAX), 10);
    assert_eq!(d.map, [5, 3, 10, 5, 10, 7, 8, 3, 10, 6]);
}
