//! Crouching: the collider height moves toward its crouched or its upright
//! value at a fixed rate.

use vstd::prelude::*;
use crate::config::ControllerConfig;
use crate::fixed::{
    bounded, clamp, clamp_to, lemma_product_bound, magnitude, multiply, product, LIMIT,
};

verus! {

/// The height after one tick: lowered by `crouch_speed * dt` while crouch is
/// held, raised by `uncrouch_speed * dt` otherwise, and kept between the
/// crouched and the upright height.
pub open spec fn next_height(height: int, crouch: bool, config: ControllerConfig, dt: int) -> int {
    let rate = if crouch {
        -config.crouch_speed
    } else {
        config.uncrouch_speed as int
    };
    clamp(
        height + product(rate, dt),
        config.crouch_height as int,
        config.upright_height as int,
    )
}

/// The height after a run of ticks, each with its crouch flag and its
/// duration, last tick last.
pub open spec fn height_after(
    height: int,
    config: ControllerConfig,
    ticks: Seq<(bool, int)>,
) -> int
    decreases ticks.len(),
{
    if ticks.len() == 0 {
        height
    } else {
        next_height(
            height_after(height, config, ticks.drop_last()),
            ticks.last().0,
            config,
            ticks.last().1,
        )
    }
}

/// Whatever the crouch inputs and the durations of the ticks, the height is
/// between the crouched and the upright height after every tick.
pub proof fn lemma_height_stays_in_range(
    height: int,
    config: ControllerConfig,
    ticks: Seq<(bool, int)>,
)
    requires
        config.crouch_height <= config.upright_height,
        ticks.len() > 0 || config.crouch_height <= height <= config.upright_height,
    ensures
        config.crouch_height <= height_after(height, config, ticks) <= config.upright_height,
{
}

/// The collider height after one tick.
pub fn update_height(height: i64, crouch: bool, config: &ControllerConfig, dt: i64) -> (r: i64)
    requires
        bounded(height as int),
        config.wf(),
        magnitude(dt as int),
    ensures
        r == next_height(height as int, crouch, *config, dt as int),
        config.crouch_height <= r <= config.upright_height,
{
    let rate = if crouch {
        -config.crouch_speed
    } else {
        config.uncrouch_speed
    };
    proof {
        lemma_product_bound(rate as int, dt as int, LIMIT as int, LIMIT as int);
        assert(LIMIT * LIMIT == 0x1_0000_0000_0000_0000_0000int) by (nonlinear_arith);
    }
    clamp_to(height + multiply(rate, dt), config.crouch_height, config.upright_height)
}

} // verus!
