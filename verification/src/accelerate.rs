//! The acceleration model shared by the ground and the air paths.

use vstd::prelude::*;
use crate::fixed::{
    lemma_product_bound, lemma_product_sign, lemma_truncated_sign, magnitude, min, multiply3,
    product, product3, LIMIT, ONE,
};
use crate::vector::{Vec3, Vector};

verus! {

/// Speed gained in one tick when nothing else limits it.
pub open spec fn speed_gain(wish_speed: int, accel: int, dt: int) -> int {
    product3(accel, wish_speed, dt)
}

/// The velocity that one tick adds toward `wish_dir`: nothing when the
/// velocity already has `wish_speed` along `wish_dir`, else `wish_dir` times
/// the speed gain, which is cut to what is missing.
pub open spec fn acceleration(
    wish_dir: Vector,
    wish_speed: int,
    accel: int,
    velocity: Vector,
    dt: int,
) -> Vector {
    let missing = wish_speed - velocity.dot(wish_dir);
    if missing <= 0 {
        Vector::zero()
    } else {
        wish_dir.scaled(min(speed_gain(wish_speed, accel, dt), missing))
    }
}

proof fn lemma_gain_not_negative(wish_speed: int, accel: int, dt: int)
    requires
        wish_speed >= 0,
        accel >= 0,
        dt >= 0,
    ensures
        speed_gain(wish_speed, accel, dt) >= 0,
{
    assert(accel * wish_speed * dt >= 0) by (nonlinear_arith)
        requires
            wish_speed >= 0,
            accel >= 0,
            dt >= 0,
    ;
    lemma_truncated_sign(accel * wish_speed * dt, ONE * ONE);
}

proof fn lemma_component_along(d: int, s: int)
    requires
        s >= 0,
    ensures
        0 <= product(d, s) * d,
        (product(d, s) * d) * ONE <= (d * d) * s,
{
    let t = product(d, s);
    lemma_product_sign(d, s);
    if d >= 0 {
        assert(d * s >= 0) by (nonlinear_arith)
            requires
                d >= 0,
                s >= 0,
        ;
        assert(0 <= t * d && (t * d) * ONE <= (d * d) * s) by (nonlinear_arith)
            requires
                d >= 0,
                0 <= t * ONE <= d * s,
        ;
    } else {
        assert(d * s <= 0) by (nonlinear_arith)
            requires
                d < 0,
                s >= 0,
        ;
        assert(0 <= t * d && (t * d) * ONE <= (d * d) * s) by (nonlinear_arith)
            requires
                d < 0,
                d * s <= t * ONE <= 0,
        ;
    }
}

/// A vector no longer than one, scaled by `s >= 0`, has at most `s` along
/// that vector, and nothing against it.
pub proof fn lemma_scaled_along(wish_dir: Vector, s: int)
    requires
        s >= 0,
        wish_dir.at_most_unit(),
    ensures
        0 <= wish_dir.scaled(s).inner(wish_dir) <= s * ONE,
        0 <= wish_dir.scaled(s).dot(wish_dir) <= s,
{
    let a = wish_dir.scaled(s);
    lemma_component_along(wish_dir.x, s);
    lemma_component_along(wish_dir.y, s);
    lemma_component_along(wish_dir.z, s);
    let n = wish_dir.inner(wish_dir);
    assert((wish_dir.x * wish_dir.x) * s + (wish_dir.y * wish_dir.y) * s + (wish_dir.z
        * wish_dir.z) * s == n * s) by (nonlinear_arith)
        requires
            n == wish_dir.x * wish_dir.x + wish_dir.y * wish_dir.y + wish_dir.z * wish_dir.z,
    ;
    assert(n * s <= (ONE * ONE) * s) by (nonlinear_arith)
        requires
            n <= ONE * ONE,
            s >= 0,
    ;
    assert((ONE * ONE) * s == (s * ONE) * ONE) by (nonlinear_arith);
}

/// The added velocity is zero whenever the velocity already has the wished
/// speed along the wished direction; otherwise what it adds along that
/// direction is not negative and no more than what is missing.
pub proof fn lemma_acceleration_is_capped(
    wish_dir: Vector,
    wish_speed: int,
    accel: int,
    velocity: Vector,
    dt: int,
)
    requires
        wish_speed >= 0,
        accel >= 0,
        dt >= 0,
        wish_dir.at_most_unit(),
    ensures
        ({
            let added = acceleration(wish_dir, wish_speed, accel, velocity, dt);
            let along = velocity.dot(wish_dir);
            &&& along >= wish_speed ==> added == Vector::zero()
            &&& velocity.inner(wish_dir) >= wish_speed * ONE ==> added == Vector::zero()
            &&& along <= wish_speed ==> 0 <= added.dot(wish_dir) <= wish_speed - along
            &&& along <= wish_speed ==> added.inner(wish_dir) <= (wish_speed - along) * ONE
        }),
{
    let missing = wish_speed - velocity.dot(wish_dir);
    lemma_gain_not_negative(wish_speed, accel, dt);
    if missing > 0 {
        lemma_scaled_along(wish_dir, min(speed_gain(wish_speed, accel, dt), missing));
    } else {
        assert(Vector::zero().inner(wish_dir) == 0) by (nonlinear_arith)
            requires
                Vector::zero().inner(wish_dir) == 0 * wish_dir.x + 0 * wish_dir.y + 0 * wish_dir.z,
        ;
    }
}

/// The velocity that one tick adds toward `wish_dir`.
pub fn accelerate(wish_dir: Vec3, wish_speed: i64, accel: i64, velocity: Vec3, dt: i64) -> (r:
    Vec3)
    requires
        wish_dir@.within(ONE as int),
        magnitude(wish_speed as int),
        magnitude(accel as int),
        magnitude(dt as int),
        velocity@.bounded(),
    ensures
        r@ == acceleration(wish_dir@, wish_speed as int, accel as int, velocity@, dt as int),
        r@.within(4 * LIMIT),
        velocity@.dot(wish_dir@) >= wish_speed ==> r@ == Vector::zero(),
        wish_dir@.at_most_unit() && velocity@.dot(wish_dir@) <= wish_speed ==> 0 <= r@.dot(
            wish_dir@,
        ) <= wish_speed - velocity@.dot(wish_dir@),
{
    proof {
        velocity@.lemma_dot_bound(wish_dir@, LIMIT as int);
        if wish_dir@.at_most_unit() {
            lemma_acceleration_is_capped(
                wish_dir@,
                wish_speed as int,
                accel as int,
                velocity@,
                dt as int,
            );
        }
    }
    let along = velocity.dot(wish_dir);
    let missing = wish_speed - along;
    if missing <= 0 {
        Vec3::zero()
    } else {
        let gain = multiply3(accel, wish_speed, dt);
        let step = if gain < missing as i128 {
            gain as i64
        } else {
            missing
        };
        proof {
            lemma_gain_not_negative(wish_speed as int, accel as int, dt as int);
            lemma_product_bound(wish_dir.x as int, step as int, ONE as int, 4 * LIMIT);
            lemma_product_bound(wish_dir.y as int, step as int, ONE as int, 4 * LIMIT);
            lemma_product_bound(wish_dir.z as int, step as int, ONE as int, 4 * LIMIT);
        }
        wish_dir.scaled(step)
    }
}

} // verus!
