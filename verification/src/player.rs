//! A simple walker on a flat floor: it moves along one axis at a time, hops,
//! and sinks back to the floor.

use vstd::prelude::*;
use crate::fixed::{
    bounded, lemma_product_bound, magnitude, multiply, product, saturate, saturating, LIMIT, ONE,
};
use crate::vector::{Vec3, Vector};

verus! {

/// Speed of the walker along an axis: ten.
pub const MOVE_UNITS: i64 = 10_485_760;

/// The jump force a hop starts with: two and a half.
pub const JUMP_UNITS: i64 = 2_621_440;

/// Speed at which the walker sinks: one and a half.
pub const GRAVITY_UNITS: i64 = 1_572_864;

/// Height at which the walker stands on the floor: a half.
pub const FLOOR_HEIGHT: i64 = 524_288;

/// The keys that steer the walker.
#[derive(Clone, Copy, Debug, PartialEq, Eq, Structural)]
pub struct PlayerKeys {
    pub w: bool,
    pub s: bool,
    pub a: bool,
    pub d: bool,
    pub space: bool,
}

/// The walker.
#[derive(Clone, Copy, Debug, PartialEq, Eq, Structural)]
pub struct Player {
    pub pos: Vec3,
    pub jump_force: i64,
}

/// The step along `x` that the keys ask for: forward with `w`, else back
/// with `s`, else none.
pub open spec fn step_x(keys: PlayerKeys, delta: int) -> int {
    if keys.w {
        product(delta, MOVE_UNITS as int)
    } else if keys.s {
        -product(delta, MOVE_UNITS as int)
    } else {
        0
    }
}

/// The step along `z` that the keys ask for, which they do only where they
/// ask for none along `x`: left with `a`, else right with `d`, else none.
pub open spec fn step_z(keys: PlayerKeys, delta: int) -> int {
    if keys.w || keys.s {
        0
    } else if keys.a {
        -product(delta, MOVE_UNITS as int)
    } else if keys.d {
        product(delta, MOVE_UNITS as int)
    } else {
        0
    }
}

/// The jump force once the keys are read: a hop starts where `space` is
/// held by a walker that stands on the floor and has no jump force left.
pub open spec fn force_at_start(player: Player, keys: PlayerKeys) -> int {
    if keys.space && player.jump_force == 0 && player.pos.y == FLOOR_HEIGHT {
        JUMP_UNITS as int
    } else {
        player.jump_force as int
    }
}

/// The jump force after the tick: it wears off by `delta`, and is gone once
/// it is no more than `delta`.
pub open spec fn next_jump_force(player: Player, keys: PlayerKeys, delta: int) -> int {
    let force = force_at_start(player, keys);
    if force > delta {
        force - delta
    } else {
        0
    }
}

/// The height after the tick, before it is made storable: raised by the
/// jump force while there is one, then lowered by gravity where that leaves
/// the walker above the floor.
pub open spec fn next_altitude(player: Player, keys: PlayerKeys, delta: int) -> int {
    let force = force_at_start(player, keys);
    let raised = if force > delta {
        player.pos.y + product(force, delta)
    } else {
        player.pos.y as int
    };
    if raised > FLOOR_HEIGHT {
        raised - product(GRAVITY_UNITS as int, delta)
    } else {
        raised
    }
}

impl Player {
    /// Position and jump force are storable.
    pub open spec fn wf(&self) -> bool {
        self.pos@.bounded() && bounded(self.jump_force as int)
    }

    /// Tells whether position and jump force are storable.
    pub fn is_valid(&self) -> (r: bool)
        ensures
            r == self.wf(),
    {
        -LIMIT <= self.pos.x && self.pos.x <= LIMIT && -LIMIT <= self.pos.y && self.pos.y <= LIMIT
            && -LIMIT <= self.pos.z && self.pos.z <= LIMIT && -LIMIT <= self.jump_force
            && self.jump_force <= LIMIT
    }

    /// Moves the walker by one tick of duration `delta`.
    pub fn update(&mut self, keys: &PlayerKeys, delta: i64)
        requires
            old(self).wf(),
            magnitude(delta as int),
        ensures
            final(self).wf(),
            final(self).pos@ == (Vector {
                x: saturate(old(self).pos.x + step_x(*keys, delta as int)),
                y: saturate(next_altitude(*old(self), *keys, delta as int)),
                z: saturate(old(self).pos.z + step_z(*keys, delta as int)),
            }),
            final(self).jump_force == next_jump_force(*old(self), *keys, delta as int),
    {
        proof {
            lemma_product_bound(delta as int, MOVE_UNITS as int, LIMIT as int, 10 * ONE);
            lemma_product_bound(GRAVITY_UNITS as int, delta as int, 2 * ONE, LIMIT as int);
        }
        let stride = multiply(delta, MOVE_UNITS);
        let mut x = self.pos.x;
        let mut y = self.pos.y;
        let mut z = self.pos.z;
        if keys.w {
            x = x + stride;
        } else if keys.s {
            x = x - stride;
        } else if keys.a {
            z = z - stride;
        } else if keys.d {
            z = z + stride;
        }
        if keys.space && self.jump_force == 0 && y == FLOOR_HEIGHT {
            self.jump_force = JUMP_UNITS;
        }
        if self.jump_force > delta {
            proof {
                lemma_product_bound(
                    self.jump_force as int,
                    delta as int,
                    LIMIT as int,
                    LIMIT as int,
                );
                assert(LIMIT * LIMIT == 0x1_0000_0000_0000_0000_0000int) by (nonlinear_arith);
            }
            y = y + multiply(self.jump_force, delta);
            self.jump_force = self.jump_force - delta;
        } else {
            self.jump_force = 0;
        }
        if y > FLOOR_HEIGHT {
            y = y - multiply(GRAVITY_UNITS, delta);
        }
        self.pos = Vec3 { x: saturating(x), y: saturating(y), z: saturating(z) };
    }
}

} // verus!
