//! Ground friction.

use vstd::prelude::*;
use crate::fixed::{
    bounded, divide, lemma_product_shrinks, lemma_quotient_fraction, lemma_root_up_monotone,
    lemma_truncated_sign, magnitude, max, multiply3, product3, quotient, LIMIT, ONE,
};
use crate::vector::{Vec3, Vector};

verus! {

/// Speed that one tick of friction takes off a controller whose lateral
/// speed is `lateral`.
pub open spec fn friction_drop(lateral: int, friction: int, stop_speed: int, dt: int) -> int {
    product3(max(lateral, stop_speed), friction, dt)
}

/// Factor by which friction multiplies the lateral velocity: what is left of
/// the speed over the speed, and never less than zero.
pub open spec fn friction_scale(lateral: int, drop: int) -> int {
    max(quotient(lateral - drop, lateral), 0)
}

/// The velocity after one tick of ground friction: scaled down laterally
/// while the lateral speed is above `cutoff`, stopped laterally otherwise.
pub open spec fn after_friction(
    velocity: Vector,
    friction: int,
    stop_speed: int,
    cutoff: int,
    dt: int,
) -> Vector {
    let lateral = velocity.lateral_speed();
    if lateral > cutoff {
        velocity.scaled_laterally(
            friction_scale(lateral, friction_drop(lateral, friction, stop_speed, dt)),
        )
    } else {
        Vector { x: 0, y: velocity.y, z: 0 }
    }
}

proof fn lemma_drop_not_negative(lateral: int, friction: int, stop_speed: int, dt: int)
    requires
        lateral >= 0,
        friction >= 0,
        dt >= 0,
    ensures
        friction_drop(lateral, friction, stop_speed, dt) >= 0,
{
    let control = max(lateral, stop_speed);
    assert(control * friction * dt >= 0) by (nonlinear_arith)
        requires
            control >= 0,
            friction >= 0,
            dt >= 0,
    ;
    lemma_truncated_sign(control * friction * dt, ONE * ONE);
}

proof fn lemma_scale_is_fraction(lateral: int, drop: int)
    requires
        lateral > 0,
        drop >= 0,
    ensures
        0 <= friction_scale(lateral, drop) <= ONE,
{
    if lateral - drop > 0 {
        lemma_quotient_fraction(lateral - drop, lateral);
    }
}

proof fn lemma_squares_ordered(a: int, b: int)
    requires
        (b >= 0 && 0 <= a <= b) || (b <= 0 && b <= a <= 0),
    ensures
        0 <= a * a <= b * b,
{
    assert(0 <= a * a <= b * b) by (nonlinear_arith)
        requires
            (b >= 0 && 0 <= a <= b) || (b <= 0 && b <= a <= 0),
    ;
}

/// Friction leaves the vertical speed alone, never reverses the sign of a
/// lateral component, never grows one, and so never raises the lateral
/// speed.
pub proof fn lemma_friction_only_slows(
    velocity: Vector,
    friction: int,
    stop_speed: int,
    cutoff: int,
    dt: int,
)
    requires
        friction >= 0,
        cutoff >= 0,
        dt >= 0,
    ensures
        ({
            let slowed = after_friction(velocity, friction, stop_speed, cutoff, dt);
            &&& slowed.y == velocity.y
            &&& velocity.x >= 0 ==> 0 <= slowed.x <= velocity.x
            &&& velocity.x <= 0 ==> velocity.x <= slowed.x <= 0
            &&& velocity.z >= 0 ==> 0 <= slowed.z <= velocity.z
            &&& velocity.z <= 0 ==> velocity.z <= slowed.z <= 0
            &&& slowed.lateral_speed() <= velocity.lateral_speed()
        }),
{
    let slowed = after_friction(velocity, friction, stop_speed, cutoff, dt);
    let lateral = velocity.lateral_speed();
    if lateral > cutoff {
        let drop = friction_drop(lateral, friction, stop_speed, dt);
        lemma_drop_not_negative(lateral, friction, stop_speed, dt);
        lemma_scale_is_fraction(lateral, drop);
        let scale = friction_scale(lateral, drop);
        lemma_product_shrinks(velocity.x, scale);
        lemma_product_shrinks(velocity.z, scale);
    }
    lemma_squares_ordered(slowed.x, velocity.x);
    lemma_squares_ordered(slowed.z, velocity.z);
    lemma_root_up_monotone(
        slowed.x * slowed.x + slowed.z * slowed.z,
        velocity.x * velocity.x + velocity.z * velocity.z,
    );
}

/// One tick of ground friction.
pub fn apply_friction(velocity: Vec3, friction: i64, stop_speed: i64, cutoff: i64, dt: i64) -> (r:
    Vec3)
    requires
        velocity@.bounded(),
        magnitude(friction as int),
        bounded(stop_speed as int),
        magnitude(cutoff as int),
        magnitude(dt as int),
    ensures
        r@ == after_friction(
            velocity@,
            friction as int,
            stop_speed as int,
            cutoff as int,
            dt as int,
        ),
        r@.bounded(),
        r.y == velocity.y,
        velocity.x >= 0 ==> 0 <= r.x <= velocity.x,
        velocity.x <= 0 ==> velocity.x <= r.x <= 0,
        velocity.z >= 0 ==> 0 <= r.z <= velocity.z,
        velocity.z <= 0 ==> velocity.z <= r.z <= 0,
        r@.lateral_speed() <= velocity@.lateral_speed(),
{
    proof {
        lemma_friction_only_slows(
            velocity@,
            friction as int,
            stop_speed as int,
            cutoff as int,
            dt as int,
        );
        velocity@.lemma_length_bound(LIMIT as int);
    }
    let lateral = velocity.lateral_speed();
    if lateral > cutoff {
        let control = if lateral >= stop_speed {
            lateral
        } else {
            stop_speed
        };
        let drop = multiply3(control, friction, dt);
        let left: i128 = lateral as i128 - drop;
        proof {
            lemma_drop_not_negative(lateral as int, friction as int, stop_speed as int, dt as int);
            lemma_scale_is_fraction(lateral as int, drop as int);
            lemma_truncated_sign(left * ONE, lateral as int);
        }
        let scale = if left <= 0 {
            0
        } else {
            divide(left as i64, lateral)
        };
        proof {
            lemma_product_shrinks(velocity.x as int, scale as int);
            lemma_product_shrinks(velocity.z as int, scale as int);
        }
        velocity.scaled_laterally(scale)
    } else {
        Vec3 { x: 0, y: velocity.y, z: 0 }
    }
}

} // verus!
