//! How the velocity changes in one tick, on the ground and in the air.

use vstd::prelude::*;
use crate::accelerate::{accelerate, acceleration};
use crate::air::{cap_lateral_speed, capped_laterally, lemma_cap_holds};
use crate::config::ControllerConfig;
use crate::fixed::{bounded, lemma_product_bound, magnitude, min, multiply, product, LIMIT, ONE};
use crate::friction::{after_friction, apply_friction};
use crate::intent::Wish;
use crate::probe::GroundHit;
use crate::vector::{Vec3, Vector};

verus! {

/// The velocity as it enters a tick on ground. A controller that stood on
/// ground with traction the tick before is slowed by friction; on its first
/// such tick its vertical speed is set to minus the distance to the ground,
/// which takes the rest of the fall out of it.
pub open spec fn settled(
    velocity: Vector,
    ground_tick: int,
    hit: GroundHit,
    config: ControllerConfig,
    dt: int,
) -> Vector {
    if ground_tick >= 1 && hit.traction {
        let slowed = after_friction(
            velocity,
            config.friction as int,
            config.stop_speed as int,
            config.friction_speed_cutoff as int,
            dt,
        );
        if ground_tick == 1 {
            slowed.with_y(-hit.time_of_impact)
        } else {
            slowed
        }
    } else {
        velocity
    }
}

/// The velocity without its part along `normal`.
pub open spec fn slid_along(velocity: Vector, normal: Vector) -> Vector {
    velocity.minus(normal.scaled(velocity.dot(normal)))
}

/// The velocity with one tick of gravity taken off.
pub open spec fn fallen(velocity: Vector, gravity: int, dt: int) -> Vector {
    velocity.with_y(velocity.y - product(gravity, dt))
}

/// The velocity after a tick on ground, before it is made storable:
/// settled, accelerated toward the wish, and then, with traction, kept on
/// the surface and set to the jump speed where a jump is asked for, or,
/// without traction, pulled down by gravity.
pub open spec fn velocity_on_ground(
    velocity: Vector,
    ground_tick: int,
    hit: GroundHit,
    wish: Wish,
    jump: bool,
    config: ControllerConfig,
    dt: int,
) -> Vector {
    let entered = settled(velocity, ground_tick, hit, config, dt);
    let pushed = entered.plus(
        acceleration(
            wish.direction@,
            wish.speed as int,
            config.acceleration as int,
            entered,
            dt,
        ),
    );
    if hit.traction {
        let kept = slid_along(pushed, hit.normal@);
        if jump {
            kept.with_y(config.jump_speed as int)
        } else {
            kept
        }
    } else {
        fallen(pushed, config.gravity as int, dt)
    }
}

/// The velocity after a tick in the air, before it is made storable:
/// accelerated toward the wish, whose speed is capped for the air, pulled
/// down by gravity, and capped laterally.
pub open spec fn velocity_in_air(
    velocity: Vector,
    wish: Wish,
    config: ControllerConfig,
    dt: int,
) -> Vector {
    let pushed = velocity.plus(
        acceleration(
            wish.direction@,
            min(wish.speed as int, config.air_speed_cap as int),
            config.air_acceleration as int,
            velocity,
            dt,
        ),
    );
    capped_laterally(fallen(pushed, config.gravity as int, dt), config.max_air_speed as int)
}

/// The velocity after a tick.
pub open spec fn next_velocity(
    velocity: Vector,
    ground_tick: int,
    ground: Option<GroundHit>,
    wish: Wish,
    jump: bool,
    config: ControllerConfig,
    dt: int,
) -> Vector {
    match ground {
        Some(hit) => velocity_on_ground(velocity, ground_tick, hit, wish, jump, config, dt),
        None => velocity_in_air(velocity, wish, config, dt),
    }.saturated()
}

/// The count of ticks on ground after a tick: one more, up to 255, where
/// ground was found, else zero.
pub open spec fn next_ground_tick(ground_tick: int, grounded: bool) -> int {
    if grounded {
        min(ground_tick + 1, 255)
    } else {
        0
    }
}

/// The configuration with another jump speed.
pub open spec fn with_jump_speed(config: ControllerConfig, jump_speed: i64) -> ControllerConfig {
    ControllerConfig { jump_speed, ..config }
}

/// A jump happens only on ground with traction, in the tick that asks for
/// it: there the vertical speed becomes the jump speed, whatever it was.
/// In every other tick neither the request nor the jump speed has any
/// effect on the velocity; in particular not in the air.
pub proof fn lemma_jump_needs_traction(
    velocity: Vector,
    ground_tick: int,
    ground: Option<GroundHit>,
    wish: Wish,
    jump: bool,
    config: ControllerConfig,
    other_jump_speed: i64,
    dt: int,
)
    requires
        bounded(config.jump_speed as int),
    ensures
        ({
            let after = next_velocity(velocity, ground_tick, ground, wish, jump, config, dt);
            let jumps = jump && ground.is_some() && ground.unwrap().traction;
            &&& jumps ==> after.y == config.jump_speed
            &&& !jumps ==> after == next_velocity(
                velocity,
                ground_tick,
                ground,
                wish,
                false,
                with_jump_speed(config, other_jump_speed),
                dt,
            )
        }),
{
}

/// After a tick in the air the lateral speed is at most the largest air
/// speed.
pub proof fn lemma_air_speed_is_capped(
    velocity: Vector,
    ground_tick: int,
    wish: Wish,
    jump: bool,
    config: ControllerConfig,
    dt: int,
)
    requires
        magnitude(config.max_air_speed as int),
    ensures
        ({
            let after = next_velocity(velocity, ground_tick, None, wish, jump, config, dt);
            &&& after.x * after.x + after.z * after.z <= config.max_air_speed
                * config.max_air_speed
            &&& after.lateral_speed() <= config.max_air_speed
        }),
{
    let pushed = velocity.plus(
        acceleration(
            wish.direction@,
            min(wish.speed as int, config.air_speed_cap as int),
            config.air_acceleration as int,
            velocity,
            dt,
        ),
    );
    let free = fallen(pushed, config.gravity as int, dt);
    lemma_cap_holds(free, config.max_air_speed as int);
    let capped = capped_laterally(free, config.max_air_speed as int);
    let m = config.max_air_speed as int;
    assert(-m <= capped.x <= m && -m <= capped.z <= m) by (nonlinear_arith)
        requires
            capped.x * capped.x + capped.z * capped.z <= m * m,
            m >= 0,
    ;
}

/// The velocity after a tick on ground.
pub fn move_on_ground(
    velocity: Vec3,
    ground_tick: u8,
    hit: &GroundHit,
    wish: &Wish,
    jump: bool,
    config: &ControllerConfig,
    dt: i64,
) -> (r: Vec3)
    requires
        velocity@.bounded(),
        hit.wf(),
        wish.wf(),
        config.wf(),
        magnitude(dt as int),
    ensures
        r@ == velocity_on_ground(
            velocity@,
            ground_tick as int,
            *hit,
            *wish,
            jump,
            *config,
            dt as int,
        ).saturated(),
        r@.bounded(),
        jump && hit.traction ==> r.y == config.jump_speed,
{
    let mut entered = velocity;
    if ground_tick >= 1 && hit.traction {
        entered =
        apply_friction(
            velocity,
            config.friction,
            config.stop_speed,
            config.friction_speed_cutoff,
            dt,
        );
        if ground_tick == 1 {
            entered.y = -hit.time_of_impact;
        }
    }
    let added = accelerate(wish.direction, wish.speed, config.acceleration, entered, dt);
    let pushed = entered.plus(added);
    if hit.traction {
        proof {
            pushed@.lemma_dot_bound(hit.normal@, 5 * LIMIT);
        }
        let along = pushed.dot(hit.normal);
        proof {
            lemma_product_bound(hit.normal.x as int, along as int, ONE as int, 15 * LIMIT);
            lemma_product_bound(hit.normal.y as int, along as int, ONE as int, 15 * LIMIT);
            lemma_product_bound(hit.normal.z as int, along as int, ONE as int, 15 * LIMIT);
        }
        let mut kept = pushed.minus(hit.normal.scaled(along));
        if jump {
            kept.y = config.jump_speed;
        }
        kept.saturated()
    } else {
        proof {
            lemma_product_bound(config.gravity as int, dt as int, LIMIT as int, LIMIT as int);
            assert(LIMIT * LIMIT == 0x1_0000_0000_0000_0000_0000int) by (nonlinear_arith);
        }
        let mut free = pushed;
        free.y = pushed.y - multiply(config.gravity, dt);
        free.saturated()
    }
}

/// The velocity after a tick in the air.
pub fn move_in_air(velocity: Vec3, wish: &Wish, config: &ControllerConfig, dt: i64) -> (r: Vec3)
    requires
        velocity@.bounded(),
        wish.wf(),
        config.wf(),
        magnitude(dt as int),
    ensures
        r@ == velocity_in_air(velocity@, *wish, *config, dt as int).saturated(),
        r@.bounded(),
        r@.lateral_speed() <= config.max_air_speed,
{
    let speed = if wish.speed < config.air_speed_cap {
        wish.speed
    } else {
        config.air_speed_cap
    };
    let added = accelerate(wish.direction, speed, config.air_acceleration, velocity, dt);
    let pushed = velocity.plus(added);
    proof {
        lemma_product_bound(config.gravity as int, dt as int, LIMIT as int, LIMIT as int);
        assert(LIMIT * LIMIT == 0x1_0000_0000_0000_0000_0000int) by (nonlinear_arith);
        lemma_air_speed_is_capped(velocity@, 0, *wish, false, *config, dt as int);
    }
    let mut free = pushed;
    free.y = pushed.y - multiply(config.gravity, dt);
    cap_lateral_speed(free, config.max_air_speed).saturated()
}

/// The count of ticks on ground after a tick.
pub fn count_ground_tick(ground_tick: u8, grounded: bool) -> (r: u8)
    ensures
        r == next_ground_tick(ground_tick as int, grounded),
        r == 0 <==> !grounded,
{
    if grounded {
        ground_tick.saturating_add(1)
    } else {
        0
    }
}

} // verus!
