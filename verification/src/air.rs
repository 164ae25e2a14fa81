//! The cap on lateral speed while airborne.

use vstd::prelude::*;
use crate::fixed::{
    divide, lemma_product_shrinks, lemma_product_sign, lemma_quotient_fraction, lemma_root_up,
    lemma_root_up_least, lemma_truncated, magnitude, product, quotient, ONE,
};
use crate::vector::{abs, lemma_shrunk_norm, lemma_shrunk_square, Vec3, Vector, HEADROOM};

verus! {

/// The velocity with its lateral part scaled down to `max_speed` where it is
/// faster, by one factor for both components; the vertical part is kept.
pub open spec fn capped_laterally(velocity: Vector, max_speed: int) -> Vector {
    let speed = velocity.lateral_speed();
    if speed > max_speed {
        velocity.scaled_laterally(quotient(max_speed, speed))
    } else {
        velocity
    }
}

proof fn lemma_capped_component(v: int, max_speed: int, speed: int)
    requires
        0 <= max_speed < speed,
    ensures
        abs(product(v, quotient(max_speed, speed))) * speed <= abs(v) * max_speed,
{
    let r = quotient(max_speed, speed);
    let w = product(v, r);
    lemma_quotient_fraction(max_speed, speed);
    lemma_truncated(max_speed * ONE, speed);
    lemma_product_sign(v, r);
    lemma_product_shrinks(v, r);
    let a = abs(w);
    let b = abs(v);
    assert(a * ONE <= b * r) by (nonlinear_arith)
        requires
            a == abs(w),
            b == abs(v),
            0 <= r,
            v * r >= 0 ==> 0 <= w * ONE <= v * r,
            v * r <= 0 ==> v * r <= w * ONE <= 0,
            v >= 0 ==> 0 <= w <= v,
            v <= 0 ==> v <= w <= 0,
    ;
    assert((a * speed) * ONE <= (b * max_speed) * ONE) by (nonlinear_arith)
        requires
            a * ONE <= b * r,
            r * speed <= max_speed * ONE,
            speed > 0,
            b >= 0,
            a >= 0,
            r >= 0,
    ;
}

/// After the cap the lateral speed is at most `max_speed`, exactly and as
/// the solver measures it; the vertical speed is untouched and no lateral
/// component changes sign or grows.
pub proof fn lemma_cap_holds(velocity: Vector, max_speed: int)
    requires
        max_speed >= 0,
    ensures
        ({
            let capped = capped_laterally(velocity, max_speed);
            &&& capped.y == velocity.y
            &&& capped.x * capped.x + capped.z * capped.z <= max_speed * max_speed
            &&& capped.lateral_speed() <= max_speed
            &&& velocity.x >= 0 ==> 0 <= capped.x <= velocity.x
            &&& velocity.x <= 0 ==> velocity.x <= capped.x <= 0
            &&& velocity.z >= 0 ==> 0 <= capped.z <= velocity.z
            &&& velocity.z <= 0 ==> velocity.z <= capped.z <= 0
        }),
{
    let capped = capped_laterally(velocity, max_speed);
    let speed = velocity.lateral_speed();
    let m = velocity.x * velocity.x + velocity.z * velocity.z;
    lemma_root_up(m);
    if speed > max_speed {
        let r = quotient(max_speed, speed);
        lemma_quotient_fraction(max_speed, speed);
        lemma_product_shrinks(velocity.x, r);
        lemma_product_shrinks(velocity.z, r);
        lemma_capped_component(velocity.x, max_speed, speed);
        lemma_capped_component(velocity.z, max_speed, speed);
        lemma_shrunk_square(capped.x, velocity.x, speed, max_speed);
        lemma_shrunk_square(capped.z, velocity.z, speed, max_speed);
        let dd = capped.x * capped.x + capped.z * capped.z;
        assert(dd * (speed * speed) == (capped.x * capped.x) * (speed * speed) + (capped.z
            * capped.z) * (speed * speed)) by (nonlinear_arith)
            requires
                dd == capped.x * capped.x + capped.z * capped.z,
        ;
        assert(m * (max_speed * max_speed) == (velocity.x * velocity.x) * (max_speed * max_speed)
            + (velocity.z * velocity.z) * (max_speed * max_speed)) by (nonlinear_arith)
            requires
                m == velocity.x * velocity.x + velocity.z * velocity.z,
        ;
        lemma_shrunk_norm(dd, m, speed, max_speed);
        lemma_root_up_least(dd, max_speed);
    } else {
        assert(speed * speed <= max_speed * max_speed) by (nonlinear_arith)
            requires
                0 <= speed <= max_speed,
        ;
    }
}

/// Caps the lateral speed at `max_speed`.
pub fn cap_lateral_speed(velocity: Vec3, max_speed: i64) -> (r: Vec3)
    requires
        velocity@.within(HEADROOM as int),
        magnitude(max_speed as int),
    ensures
        r@ == capped_laterally(velocity@, max_speed as int),
        r@.lateral_speed() <= max_speed,
        r.y == velocity.y,
        velocity.x >= 0 ==> 0 <= r.x <= velocity.x,
        velocity.x <= 0 ==> velocity.x <= r.x <= 0,
        velocity.z >= 0 ==> 0 <= r.z <= velocity.z,
        velocity.z <= 0 ==> velocity.z <= r.z <= 0,
{
    proof {
        lemma_cap_holds(velocity@, max_speed as int);
    }
    let speed = velocity.lateral_speed();
    if speed > max_speed {
        proof {
            lemma_quotient_fraction(max_speed as int, speed as int);
        }
        let ratio = divide(max_speed, speed);
        proof {
            lemma_product_shrinks(velocity.x as int, ratio as int);
            lemma_product_shrinks(velocity.z as int, ratio as int);
        }
        velocity.scaled_laterally(ratio)
    } else {
        velocity
    }
}

} // verus!
