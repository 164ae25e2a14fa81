//! Climbing small ledges without a jump.

use vstd::prelude::*;
use crate::collider::ColliderShape;
use crate::fixed::{
    lemma_product_bound, magnitude, multiply, product, saturate, saturating, LIMIT, ONE,
};
use crate::probe::{answer_wf, down, has_traction, traction_of, CastHit, Probe, MINUS_ONE};
use crate::vector::{Vec3, Vector};

verus! {

/// Part of the step offset over which a ledge is looked for: fifteen
/// sixteenths.
pub const STEP_REACH: i64 = 983_040;

/// Steps are climbed by cylinders only, with a positive step offset, and
/// only on ground.
pub open spec fn step_applies(shape: ColliderShape, step_offset: int, ground_tick: int) -> bool {
    shape is Cylinder && step_offset > 0 && ground_tick >= 1
}

/// Where the controller will be after `dt` if nothing stops it.
pub open spec fn predicted(position: Vector, velocity: Vector, dt: int) -> Vector {
    position.plus(velocity.scaled(dt))
}

/// Where the step probe starts: the predicted position, lifted by the step
/// offset.
pub open spec fn step_origin(position: Vector, velocity: Vector, step_offset: int, dt: int) -> Vector {
    let ahead = predicted(position, velocity, dt);
    ahead.with_y(ahead.y + step_offset)
}

/// `probe` is the step probe: the whole collider, swept down from the step
/// origin over the step reach.
pub open spec fn is_step_probe(
    probe: Probe,
    position: Vector,
    velocity: Vector,
    collider: ColliderShape,
    height: int,
    step_offset: int,
    dt: int,
) -> bool {
    &&& probe matches Probe::Shape { origin, direction, shape, max_distance }
    &&& origin@ == step_origin(position, velocity, step_offset, dt)
    &&& direction@ == down()
    &&& collider.has_size(shape, height, ONE as int)
    &&& max_distance == product(step_offset, STEP_REACH as int)
}

/// How far the controller is raised: by the step offset less the distance to
/// the ledge, where the probe hit a surface that gives traction; else not
/// at all.
pub open spec fn step_rise(step_offset: int, answer: Option<CastHit>, cutoff: int) -> int {
    match answer {
        Some(CastHit { time_of_impact, normal: Some(normal) }) => if has_traction(
            normal@,
            cutoff,
        ) {
            step_offset - time_of_impact
        } else {
            0
        },
        _ => 0,
    }
}

/// The position after the step probe was answered.
pub open spec fn stepped(
    position: Vector,
    step_offset: int,
    answer: Option<CastHit>,
    cutoff: int,
) -> Vector {
    position.with_y(saturate(position.y + step_rise(step_offset, answer, cutoff)))
}

/// Tells whether a step is to be looked for.
pub fn wants_step(shape: &ColliderShape, step_offset: i64, ground_tick: u8) -> (r: bool)
    ensures
        r == step_applies(*shape, step_offset as int, ground_tick as int),
{
    shape.is_cylinder() && step_offset > 0 && ground_tick >= 1
}

/// The step probe.
pub fn step_probe(
    position: Vec3,
    velocity: Vec3,
    collider: &ColliderShape,
    height: i64,
    step_offset: i64,
    dt: i64,
) -> (r: Probe)
    requires
        position@.bounded(),
        velocity@.bounded(),
        collider.wf(),
        magnitude(height as int),
        magnitude(step_offset as int),
        magnitude(dt as int),
    ensures
        is_step_probe(
            r,
            position@,
            velocity@,
            *collider,
            height as int,
            step_offset as int,
            dt as int,
        ),
{
    proof {
        lemma_product_bound(velocity.x as int, dt as int, LIMIT as int, LIMIT as int);
        lemma_product_bound(velocity.y as int, dt as int, LIMIT as int, LIMIT as int);
        lemma_product_bound(velocity.z as int, dt as int, LIMIT as int, LIMIT as int);
        lemma_product_bound(step_offset as int, STEP_REACH as int, LIMIT as int, ONE as int);
        assert(LIMIT * LIMIT == 0x1_0000_0000_0000_0000_0000int) by (nonlinear_arith);
    }
    let ahead = position.plus(velocity.scaled(dt));
    Probe::Shape {
        origin: Vec3 { x: ahead.x, y: ahead.y + step_offset, z: ahead.z },
        direction: Vec3 { x: 0, y: MINUS_ONE, z: 0 },
        shape: collider.resized(height),
        max_distance: multiply(step_offset, STEP_REACH),
    }
}

/// The position after the step probe was answered.
pub fn climb(position: Vec3, step_offset: i64, answer: Option<CastHit>, cutoff: i64) -> (r: Vec3)
    requires
        position@.bounded(),
        magnitude(step_offset as int),
        answer_wf(answer),
    ensures
        r@ == stepped(position@, step_offset as int, answer, cutoff as int),
        r@.bounded(),
{
    let rise = match answer {
        Some(CastHit { time_of_impact, normal: Some(normal) }) => if traction_of(normal, cutoff) {
            step_offset - time_of_impact
        } else {
            0
        },
        _ => 0,
    };
    Vec3 { x: position.x, y: saturating(position.y + rise), z: position.z }
}

} // verus!
