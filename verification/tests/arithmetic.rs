use fps_movement::config::{is_bounded, is_magnitude};
use fps_movement::fixed::{
    clamp_to, divide, multiply, multiply3, saturating, sqrt_up, LIMIT, ONE, ROOT_LIMIT,
};
use fps_movement::state::is_stored;
use fps_movement::vector::{Vec3, HEADROOM};

fn fx(x: f64) -> i64 {
    (x * ONE as f64).round() as i64
}

#[test]
fn one_has_twenty_fractional_bits() {
    assert_eq!(ONE, 1 << 20);
    assert_eq!(LIMIT, 1 << 40);
    assert_eq!(HEADROOM, 1 << 61);
    assert_eq!(ROOT_LIMIT, 1u128 << 124);
}

#[test]
fn multiply_is_exact_on_representable_products() {
    assert_eq!(multiply(fx(1.5), fx(2.0)), fx(3.0));
    assert_eq!(multiply(fx(-1.5), fx(0.5)), -786_432);
    assert_eq!(multiply(fx(10.0), 0), 0);
    assert_eq!(multiply(ONE, fx(123.25)), fx(123.25));
}

#[test]
fn multiply_rounds_toward_zero() {
    assert_eq!(multiply(3, 524_288), 1);
    assert_eq!(multiply(-3, 524_288), -1);
    assert_eq!(multiply(1, 1), 0);
    assert_eq!(multiply(-1, 1), 0);
}

#[test]
fn divide_rounds_toward_zero() {
    assert_eq!(divide(1, 3), 349_525);
    assert_eq!(divide(-1, 3), -349_525);
    assert_eq!(divide(fx(1.0), fx(3.0)), 349_525);
    assert_eq!(divide(fx(6.0), fx(3.0)), fx(2.0));
    assert_eq!(divide(0, 7), 0);
}

#[test]
fn multiply3_rounds_once() {
    assert_eq!(multiply3(fx(10.0), fx(9.0), 17_476), 1_572_840);
    assert_eq!(multiply3(fx(2.0), fx(3.0), fx(4.0)), fx(24.0) as i128);
    assert_eq!(multiply3(fx(-2.0), fx(3.0), fx(4.0)), fx(-24.0) as i128);
    assert_eq!(multiply3(4 * LIMIT, 4 * LIMIT, 4 * LIMIT), 1i128 << 86);
}

#[test]
fn sqrt_up_is_the_least_root() {
    assert_eq!(sqrt_up(0), 0);
    assert_eq!(sqrt_up(1), 1);
    assert_eq!(sqrt_up(2), 2);
    assert_eq!(sqrt_up(4), 2);
    assert_eq!(sqrt_up(5), 3);
    assert_eq!(sqrt_up(100_000_000_000_000_000_000), 10_000_000_000);
    assert_eq!(sqrt_up(100_000_000_000_000_000_001), 10_000_000_001);
    assert_eq!(sqrt_up(ROOT_LIMIT), 1u128 << 62);
    assert_eq!(sqrt_up(ROOT_LIMIT - 1), 1u128 << 62);
}

#[test]
fn sqrt_up_squares_bracket_the_argument() {
    let mut q: u128 = 1;
    while q < ROOT_LIMIT / 7 {
        let r = sqrt_up(q);
        assert!(r * r >= q);
        assert!((r - 1) * (r - 1) < q);
        q = q * 7 + 3;
    }
}

#[test]
fn clamp_and_saturate() {
    assert_eq!(clamp_to(5, 1, 3), 3);
    assert_eq!(clamp_to(-5, 1, 3), 1);
    assert_eq!(clamp_to(2, 1, 3), 2);
    assert_eq!(saturating(LIMIT + 1), LIMIT);
    assert_eq!(saturating(-LIMIT - 1), -LIMIT);
    assert_eq!(saturating(i64::MAX), LIMIT);
    assert_eq!(saturating(i64::MIN), -LIMIT);
    assert_eq!(saturating(17), 17);
}

#[test]
fn range_checks() {
    assert!(is_bounded(LIMIT));
    assert!(is_bounded(-LIMIT));
    assert!(!is_bounded(LIMIT + 1));
    assert!(!is_bounded(-LIMIT - 1));
    assert!(is_magnitude(0));
    assert!(is_magnitude(LIMIT));
    assert!(!is_magnitude(-1));
    assert!(!is_magnitude(LIMIT + 1));
    assert!(is_stored(Vec3::new(LIMIT, -LIMIT, 0)));
    assert!(!is_stored(Vec3::new(LIMIT + 1, 0, 0)));
    assert!(!is_stored(Vec3::new(0, -LIMIT - 1, 0)));
    assert!(!is_stored(Vec3::new(0, 0, LIMIT + 1)));
}

#[test]
fn vector_sums_and_differences() {
    let a = Vec3::new(fx(1.0), fx(-2.0), fx(3.0));
    let b = Vec3::new(fx(0.5), fx(0.25), fx(-4.0));
    assert_eq!(a.plus(b), Vec3::new(fx(1.5), fx(-1.75), fx(-1.0)));
    assert_eq!(a.minus(b), Vec3::new(fx(0.5), fx(-2.25), fx(7.0)));
    assert_eq!(a.negated(), Vec3::new(fx(-1.0), fx(2.0), fx(-3.0)));
    assert_eq!(Vec3::zero(), Vec3::new(0, 0, 0));
}

#[test]
fn vector_scaling() {
    let a = Vec3::new(fx(1.0), fx(-2.0), fx(3.0));
    assert_eq!(a.scaled(fx(0.5)), Vec3::new(fx(0.5), fx(-1.0), fx(1.5)));
    assert_eq!(a.scaled_laterally(fx(0.5)), Vec3::new(fx(0.5), fx(-2.0), fx(1.5)));
    assert_eq!(Vec3::new(3, -3, 1).scaled(524_288), Vec3::new(1, -1, 0));
}

#[test]
fn dot_product_rounds_the_sum_once() {
    let v = Vec3::new(fx(3.0), fx(-7.0), fx(4.0));
    assert_eq!(v.dot(Vec3::new(0, ONE, 0)), fx(-7.0));
    assert_eq!(v.dot(Vec3::new(ONE, 0, 0)), fx(3.0));
    assert_eq!(v.dot(Vec3::new(fx(0.5), fx(0.5), fx(0.5))), 0);
    assert_eq!(Vec3::new(1, 1, 1).dot(Vec3::new(349_526, 349_525, 349_525)), 1);
    assert_eq!(Vec3::new(-1, -1, -1).dot(Vec3::new(349_526, 349_525, 349_525)), -1);
}

#[test]
fn lengths_are_rounded_up() {
    assert_eq!(Vec3::new(fx(3.0), 0, fx(4.0)).length(), fx(5.0));
    assert_eq!(Vec3::new(fx(3.0), fx(100.0), fx(4.0)).lateral_speed(), fx(5.0));
    assert_eq!(Vec3::new(1, 1, 1).length(), 2);
    assert_eq!(Vec3::new(1, 5, 1).lateral_speed(), 2);
    assert_eq!(Vec3::zero().length(), 0);
    assert_eq!(Vec3::zero().lateral_speed(), 0);
    assert_eq!(Vec3::new(HEADROOM, 0, 0).length(), HEADROOM);
}

#[test]
fn normalized_vectors_are_no_longer_than_one() {
    assert_eq!(Vec3::new(fx(3.0), 0, fx(4.0)).normalized(), Vec3::new(629_145, 0, 838_860));
    assert_eq!(Vec3::new(1, 1, 1).normalized(), Vec3::new(524_288, 524_288, 524_288));
    assert_eq!(Vec3::new(0, 0, fx(-30.0)).normalized(), Vec3::new(0, 0, -ONE));
    assert_eq!(Vec3::zero().normalized(), Vec3::zero());
    let samples = [
        Vec3::new(1, 0, 0),
        Vec3::new(7, -3, 2),
        Vec3::new(fx(0.001), fx(-0.002), fx(0.003)),
        Vec3::new(fx(123.0), fx(-456.0), fx(789.0)),
        Vec3::new(LIMIT, LIMIT, -LIMIT),
    ];
    for v in samples {
        let n = v.normalized();
        let squared = (n.x as i128) * (n.x as i128) + (n.y as i128) * (n.y as i128)
            + (n.z as i128) * (n.z as i128);
        assert!(squared <= (ONE as i128) * (ONE as i128));
        assert!(n.x.signum() * v.x.signum() >= 0);
        assert!(n.y.signum() * v.y.signum() >= 0);
        assert!(n.z.signum() * v.z.signum() >= 0);
    }
}

#[test]
fn saturated_vectors_are_stored() {
    let v = Vec3::new(LIMIT + 5, -LIMIT - 5, 12).saturated();
    assert_eq!(v, Vec3::new(LIMIT, -LIMIT, 12));
    assert!(is_stored(v));
}
