//! What the player wants: sampled input, and the wished direction and speed
//! that follow from it.

use vstd::prelude::*;
use crate::config::ControllerConfig;
use crate::fixed::{
    bounded, clamp, clamp_to, fraction, lemma_mul_bound, lemma_product_bound, magnitude, min,
    multiply, product, LIMIT, ONE,
};
use crate::vector::{abs, Vec3, Vector};

verus! {

/// Half a turn, in radians, to the nearest stored number.
pub const PI: i64 = 3_294_199;

/// A full turn, in radians, to the nearest stored number.
pub const TAU: i64 = 6_588_397;

/// Largest pitch, up or down: a quarter turn less a small angle, so that the
/// view never flips over.
pub const PITCH_LIMIT: i64 = 1_645_051;

/// The intent of one tick.
#[derive(Clone, Copy, Debug, PartialEq, Eq, Structural)]
pub struct InputIntent {
    /// Movement in the controller's own frame, before it is turned by the
    /// yaw: `x` strafes to the right, `z` goes forward.
    pub movement: Vec3,
    pub crouch: bool,
    pub jump: bool,
    /// Accumulated pitch, in radians.
    pub pitch: i64,
    /// Accumulated yaw, in radians.
    pub yaw: i64,
}

impl InputIntent {
    /// The movement axes lie between minus one and one, the pitch within
    /// its limit, and the yaw is storable.
    pub open spec fn wf(&self) -> bool {
        &&& self.movement@.within(ONE as int)
        &&& -PITCH_LIMIT <= self.pitch <= PITCH_LIMIT
        &&& bounded(self.yaw as int)
    }

    /// Tells whether the intent is well formed.
    pub fn is_valid(&self) -> (r: bool)
        ensures
            r == self.wf(),
    {
        -ONE <= self.movement.x && self.movement.x <= ONE && -ONE <= self.movement.y
            && self.movement.y <= ONE && -ONE <= self.movement.z && self.movement.z <= ONE
            && -PITCH_LIMIT <= self.pitch && self.pitch <= PITCH_LIMIT && -LIMIT <= self.yaw
            && self.yaw <= LIMIT
    }

    /// The intent before any input: no movement, level view, yaw zero.
    pub fn idle() -> (r: InputIntent)
        ensures
            r.wf(),
            r.movement@ == Vector::zero(),
            !r.crouch,
            !r.jump,
            r.pitch == 0,
            r.yaw == 0,
    {
        InputIntent { movement: Vec3::zero(), crouch: false, jump: false, pitch: 0, yaw: 0 }
    }
}

/// The keys that are held down during a tick.
#[derive(Clone, Copy, Debug, PartialEq, Eq, Structural)]
pub struct HeldKeys {
    pub forward: bool,
    pub back: bool,
    pub left: bool,
    pub right: bool,
    pub jump: bool,
    pub crouch: bool,
}

/// One when only the positive key is held, minus one when only the negative
/// one is, zero otherwise.
pub open spec fn axis(positive: bool, negative: bool) -> int {
    (if positive {
        ONE as int
    } else {
        0
    }) - (if negative {
        ONE as int
    } else {
        0
    })
}

/// The yaw as it is kept: unchanged within half a turn of zero, otherwise
/// reduced into `[0, TAU)`.
pub open spec fn wrapped_yaw(yaw: int) -> int {
    if abs(yaw) > PI {
        yaw % (TAU as int)
    } else {
        yaw
    }
}

/// The value of one movement axis.
pub fn axis_of(positive: bool, negative: bool) -> (r: i64)
    ensures
        r == axis(positive, negative),
{
    let up: i64 = if positive {
        ONE
    } else {
        0
    };
    let down: i64 = if negative {
        ONE
    } else {
        0
    };
    up - down
}

/// The yaw as it is kept.
pub fn wrap_yaw(yaw: i64) -> (r: i64)
    ensures
        r == wrapped_yaw(yaw as int),
        -PI <= r < TAU,
{
    if yaw > PI || yaw < -PI {
        let rest = yaw % TAU;
        if rest < 0 {
            rest + TAU
        } else {
            rest
        }
    } else {
        yaw
    }
}

/// Takes the keys held and the pointer motion gathered since the last tick
/// into the intent. The pointer motion is scaled by the sensitivity; moving
/// right lowers the yaw, moving down lowers the pitch.
pub fn sample_input(
    previous: &InputIntent,
    keys: &HeldKeys,
    look_x: i64,
    look_y: i64,
    sensitivity: i64,
) -> (r: InputIntent)
    requires
        previous.wf(),
        bounded(look_x as int),
        bounded(look_y as int),
        bounded(sensitivity as int),
    ensures
        r.wf(),
        r.movement@ == (Vector {
            x: axis(keys.right, keys.left),
            y: 0,
            z: axis(keys.forward, keys.back),
        }),
        r.crouch == keys.crouch,
        r.jump == keys.jump,
        r.pitch == clamp(
            previous.pitch - product(look_y as int, sensitivity as int),
            -PITCH_LIMIT,
            PITCH_LIMIT as int,
        ),
        r.yaw == wrapped_yaw(previous.yaw - product(look_x as int, sensitivity as int)),
{
    proof {
        lemma_product_bound(look_x as int, sensitivity as int, LIMIT as int, LIMIT as int);
        lemma_product_bound(look_y as int, sensitivity as int, LIMIT as int, LIMIT as int);
        assert(LIMIT * LIMIT == 0x1_0000_0000_0000_0000_0000int) by (nonlinear_arith);
    }
    let turn = multiply(look_x, sensitivity);
    let tilt = multiply(look_y, sensitivity);
    InputIntent {
        movement: Vec3 {
            x: axis_of(keys.right, keys.left),
            y: 0,
            z: axis_of(keys.forward, keys.back),
        },
        crouch: keys.crouch,
        jump: keys.jump,
        pitch: clamp_to(previous.pitch - tilt, -PITCH_LIMIT, PITCH_LIMIT),
        yaw: wrap_yaw(previous.yaw - turn),
    }
}

/// Sine and cosine of a yaw angle.
#[derive(Clone, Copy, Debug, PartialEq, Eq, Structural)]
pub struct Heading {
    pub sin: i64,
    pub cos: i64,
}

impl Heading {
    /// Both numbers lie between minus one and one.
    pub open spec fn wf(&self) -> bool {
        fraction(self.sin as int) && fraction(self.cos as int)
    }

    /// Tells whether both numbers lie between minus one and one.
    pub fn is_valid(&self) -> (r: bool)
        ensures
            r == self.wf(),
    {
        -ONE <= self.sin && self.sin <= ONE && -ONE <= self.cos && self.cos <= ONE
    }
}

/// The wished velocity in the world: the movement axes times their speed
/// factors, turned about the vertical axis by the yaw, with forward along
/// the negative `z` axis at yaw zero.
pub open spec fn wish_vector(movement: Vector, heading: Heading, config: ControllerConfig) -> Vector {
    let side = product(movement.x, config.side_speed as int);
    let forward = product(movement.z, config.forward_speed as int);
    Vector {
        x: product(heading.cos as int, side) - product(heading.sin as int, forward),
        y: 0,
        z: -product(heading.sin as int, side) - product(heading.cos as int, forward),
    }
}

/// The cap on the wished speed on the ground.
pub open spec fn speed_cap(crouch: bool, config: ControllerConfig) -> int {
    if crouch {
        config.crouch_speed_cap as int
    } else {
        config.walk_speed_cap as int
    }
}

/// The direction in which the player wishes to move: the wished velocity,
/// normalized.
pub open spec fn wish_direction(
    movement: Vector,
    heading: Heading,
    config: ControllerConfig,
) -> Vector {
    wish_vector(movement, heading, config).normalized()
}

/// The speed at which the player wishes to move: the length of the wished
/// velocity, capped.
pub open spec fn wish_speed(
    movement: Vector,
    crouch: bool,
    heading: Heading,
    config: ControllerConfig,
) -> int {
    min(wish_vector(movement, heading, config).length(), speed_cap(crouch, config))
}

/// A wished direction and speed.
#[derive(Clone, Copy, Debug, PartialEq, Eq, Structural)]
pub struct Wish {
    pub direction: Vec3,
    pub speed: i64,
}

impl Wish {
    /// The direction is no longer than one and the speed is a storable
    /// non-negative quantity.
    pub open spec fn wf(&self) -> bool {
        &&& self.direction@.within(ONE as int)
        &&& self.direction@.at_most_unit()
        &&& magnitude(self.speed as int)
    }

    /// Tells whether the direction is no longer than one and the speed is a
    /// storable non-negative quantity.
    pub fn is_valid(&self) -> (r: bool)
        ensures
            r == self.wf(),
    {
        let d = self.direction;
        if -ONE <= d.x && d.x <= ONE && -ONE <= d.y && d.y <= ONE && -ONE <= d.z && d.z <= ONE {
            proof {
                lemma_mul_bound(d.x as int, d.x as int, ONE as int, ONE as int);
                lemma_mul_bound(d.y as int, d.y as int, ONE as int, ONE as int);
                lemma_mul_bound(d.z as int, d.z as int, ONE as int, ONE as int);
                assert(ONE * ONE == 0x100_0000_0000) by (nonlinear_arith);
            }
            let squared = d.x * d.x + d.y * d.y + d.z * d.z;
            squared <= 0x100_0000_0000 && 0 <= self.speed && self.speed <= LIMIT
        } else {
            false
        }
    }
}

/// The wished velocity in the world.
pub fn wish_velocity(movement: Vec3, heading: &Heading, config: &ControllerConfig) -> (r: Vec3)
    requires
        movement@.within(ONE as int),
        heading.wf(),
        config.wf(),
    ensures
        r@ == wish_vector(movement@, *heading, *config),
        r@.within(2 * LIMIT),
{
    proof {
        lemma_product_bound(movement.x as int, config.side_speed as int, ONE as int, LIMIT as int);
        lemma_product_bound(
            movement.z as int,
            config.forward_speed as int,
            ONE as int,
            LIMIT as int,
        );
    }
    let side = multiply(movement.x, config.side_speed);
    let forward = multiply(movement.z, config.forward_speed);
    proof {
        lemma_product_bound(heading.cos as int, side as int, ONE as int, LIMIT as int);
        lemma_product_bound(heading.sin as int, side as int, ONE as int, LIMIT as int);
        lemma_product_bound(heading.cos as int, forward as int, ONE as int, LIMIT as int);
        lemma_product_bound(heading.sin as int, forward as int, ONE as int, LIMIT as int);
    }
    Vec3 {
        x: multiply(heading.cos, side) - multiply(heading.sin, forward),
        y: 0,
        z: -multiply(heading.sin, side) - multiply(heading.cos, forward),
    }
}

/// The wished direction and speed of one tick.
pub fn wish(intent: &InputIntent, heading: &Heading, config: &ControllerConfig) -> (r: Wish)
    requires
        intent.movement@.within(ONE as int),
        heading.wf(),
        config.wf(),
    ensures
        r.direction@ == wish_direction(intent.movement@, *heading, *config),
        r.speed == wish_speed(intent.movement@, intent.crouch, *heading, *config),
        r.wf(),
{
    let wished = wish_velocity(intent.movement, heading, config);
    let length = wished.length();
    let cap = if intent.crouch {
        config.crouch_speed_cap
    } else {
        config.walk_speed_cap
    };
    let speed = if length < cap {
        length
    } else {
        cap
    };
    Wish { direction: wished.normalized(), speed }
}

} // verus!
