//! Bringing back what fell out of the world.

use vstd::prelude::*;
use crate::vector::{Vec3, Vector};

verus! {

/// Height at or below which a body has fallen out of the world: minus fifty.
pub const FALL_LIMIT: i64 = -52_428_800;

/// Height of the spawn point, which lies on the vertical axis: one and five
/// eighths.
pub const SPAWN_HEIGHT: i64 = 1_703_936;

/// The spawn point.
pub open spec fn spawn_point() -> Vector {
    Vector { x: 0, y: SPAWN_HEIGHT as int, z: 0 }
}

/// The spawn point.
pub fn spawn() -> (r: Vec3)
    ensures
        r@ == spawn_point(),
{
    Vec3 { x: 0, y: SPAWN_HEIGHT, z: 0 }
}

/// Position and velocity of a body after the check for a fall out of the
/// world: at rest at the spawn point where it fell, unchanged where not.
pub fn respawn(position: Vec3, velocity: Vec3) -> (r: (Vec3, Vec3))
    ensures
        position.y > FALL_LIMIT ==> r == (position, velocity),
        position.y <= FALL_LIMIT ==> r.0@ == spawn_point() && r.1@ == Vector::zero(),
{
    if position.y > FALL_LIMIT {
        (position, velocity)
    } else {
        (spawn(), Vec3::zero())
    }
}

} // verus!
