//! Keeping a crouched controller from sliding off under an overhang.

use vstd::prelude::*;
use crate::fixed::{lemma_product_bound, magnitude, LIMIT, ONE};
use crate::collider::ColliderSize;
use crate::probe::{down, Probe, MINUS_ONE};
use crate::vector::{Vec3, Vector};

verus! {

/// Half the length of the overhang probe's segment: a quarter.
pub const OVERHANG_HALF_SEGMENT: i64 = 262_144;

/// Radius of the overhang probe: a hundredth.
pub const OVERHANG_RADIUS: i64 = 10_486;

/// How far the overhang probe is swept, in units of the velocity: a half.
pub const OVERHANG_REACH: i64 = 524_288;

/// How far below the top of the collider the overhang probe starts: a
/// quarter.
pub const OVERHANG_TOP_MARGIN: i64 = 262_144;

/// Length of the ray that looks for floor under the overhang probe: three
/// eighths.
pub const FLOOR_REACH: i64 = 393_216;

/// The overhang is looked for on ground, while crouch is held and no jump
/// is asked for.
pub open spec fn overhang_applies(ground_tick: int, crouch: bool, jump: bool) -> bool {
    ground_tick >= 1 && crouch && !jump
}

/// Where the overhang probe starts: at the controller, the top margin below
/// the top of its collider.
pub open spec fn overhang_origin(position: Vector, height: int) -> Vector {
    position.with_y(position.y + height / 2 - OVERHANG_TOP_MARGIN)
}

/// `probe` is the overhang probe: a small upright capsule, swept from the
/// overhang origin along the velocity.
pub open spec fn is_overhang_probe(
    probe: Probe,
    position: Vector,
    velocity: Vector,
    height: int,
) -> bool {
    &&& probe matches Probe::Shape { origin, direction, shape, max_distance }
    &&& origin@ == overhang_origin(position, height)
    &&& direction@ == velocity
    &&& shape == (ColliderSize::Capsule {
        half_segment: OVERHANG_HALF_SEGMENT,
        radius: OVERHANG_RADIUS,
    })
    &&& max_distance == OVERHANG_REACH
}

/// `probe` is the floor ray: a short ray down from the overhang origin, which
/// may start inside a body.
pub open spec fn is_floor_probe(probe: Probe, position: Vector, height: int) -> bool {
    &&& probe matches Probe::Ray { origin, direction, max_distance, solid }
    &&& origin@ == overhang_origin(position, height)
    &&& direction@ == down()
    &&& max_distance == FLOOR_REACH
    &&& !solid
}

/// The part of the velocity that runs into the surface with this normal.
pub open spec fn overhang_part(velocity: Vector, normal: Vector) -> Vector {
    let inward = normal.negated();
    inward.scaled(velocity.dot(inward))
}

/// The velocity without the part that runs into the surface.
pub open spec fn pulled_back(velocity: Vector, normal: Vector) -> Vector {
    velocity.minus(overhang_part(velocity, normal)).saturated()
}

/// Tells whether the overhang is to be looked for.
pub fn wants_overhang(ground_tick: u8, crouch: bool, jump: bool) -> (r: bool)
    ensures
        r == overhang_applies(ground_tick as int, crouch, jump),
{
    ground_tick >= 1 && crouch && !jump
}

/// The overhang probe.
pub fn overhang_probe(position: Vec3, velocity: Vec3, height: i64) -> (r: Probe)
    requires
        position@.bounded(),
        magnitude(height as int),
    ensures
        is_overhang_probe(r, position@, velocity@, height as int),
{
    Probe::Shape {
        origin: Vec3 {
            x: position.x,
            y: position.y + height / 2 - OVERHANG_TOP_MARGIN,
            z: position.z,
        },
        direction: velocity,
        shape: ColliderSize::Capsule {
            half_segment: OVERHANG_HALF_SEGMENT,
            radius: OVERHANG_RADIUS,
        },
        max_distance: OVERHANG_REACH,
    }
}

/// The floor ray.
pub fn floor_probe(position: Vec3, height: i64) -> (r: Probe)
    requires
        position@.bounded(),
        magnitude(height as int),
    ensures
        is_floor_probe(r, position@, height as int),
{
    Probe::Ray {
        origin: Vec3 {
            x: position.x,
            y: position.y + height / 2 - OVERHANG_TOP_MARGIN,
            z: position.z,
        },
        direction: Vec3 { x: 0, y: MINUS_ONE, z: 0 },
        max_distance: FLOOR_REACH,
        solid: false,
    }
}

/// The velocity without the part that runs into the surface with this
/// normal.
pub fn pull_back(velocity: Vec3, normal: Vec3) -> (r: Vec3)
    requires
        velocity@.bounded(),
        normal@.within(ONE as int),
    ensures
        r@ == pulled_back(velocity@, normal@),
        r@.bounded(),
{
    let inward = normal.negated();
    proof {
        velocity@.lemma_dot_bound(inward@, LIMIT as int);
    }
    let alignment = velocity.dot(inward);
    proof {
        lemma_product_bound(inward.x as int, alignment as int, ONE as int, 3 * LIMIT);
        lemma_product_bound(inward.y as int, alignment as int, ONE as int, 3 * LIMIT);
        lemma_product_bound(inward.z as int, alignment as int, ONE as int, 3 * LIMIT);
    }
    velocity.minus(inward.scaled(alignment)).saturated()
}

} // verus!
