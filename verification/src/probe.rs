//! What the solver asks of the physics world, and what it is told.

use vstd::prelude::*;
use crate::collider::{ColliderShape, ColliderSize};
use crate::fixed::{bounded, magnitude, LIMIT, ONE};
use crate::vector::{Vec3, Vector};

verus! {

/// Factor by which the collider is narrowed for the ground probe, so that a
/// wall the controller leans on is not taken for ground: fifteen sixteenths.
pub const SLIGHT_SCALE_DOWN: i64 = 983_040;

/// The stored form of minus one.
pub const MINUS_ONE: i64 = -1_048_576;

/// How far below the controller ground is looked for: one eighth.
pub const GROUNDED_DISTANCE: i64 = 131_072;

/// A query against the physics world. The controller's own body is never to
/// be reported.
#[derive(Clone, Copy, Debug, PartialEq, Eq, Structural)]
pub enum Probe {
    /// Sweep `shape`, centred at `origin`, along `direction`, at most
    /// `max_distance` times the length of `direction`.
    Shape { origin: Vec3, direction: Vec3, shape: ColliderSize, max_distance: i64 },
    /// Cast a ray from `origin` along `direction`, at most `max_distance`
    /// times the length of `direction`.
    /// With `solid` unset a ray that starts inside a body reports the point
    /// where it leaves it.
    Ray { origin: Vec3, direction: Vec3, max_distance: i64, solid: bool },
}

/// What a cast reports when it hits.
#[derive(Clone, Copy, Debug, PartialEq, Eq, Structural)]
pub struct CastHit {
    /// Distance travelled up to the hit.
    pub time_of_impact: i64,
    /// Normal of the surface that was hit, where the world could tell.
    pub normal: Option<Vec3>,
}

impl CastHit {
    /// The distance is storable and the normal, if there is one, has
    /// components between minus one and one.
    pub open spec fn wf(&self) -> bool {
        &&& bounded(self.time_of_impact as int)
        &&& self.normal matches Some(n) ==> n@.within(ONE as int)
    }

    /// Tells whether the distance is storable and the normal, if there is
    /// one, has components between minus one and one.
    pub fn is_valid(&self) -> (r: bool)
        ensures
            r == self.wf(),
    {
        let distance_ok = -LIMIT <= self.time_of_impact && self.time_of_impact
            <= LIMIT;
        match self.normal {
            Some(n) => distance_ok && -ONE <= n.x && n.x <= ONE && -ONE <= n.y && n.y <= ONE && -ONE
                <= n.z && n.z <= ONE,
            None => distance_ok,
        }
    }
}

/// The answer to a probe is either nothing or a well-formed hit.
pub open spec fn answer_wf(answer: Option<CastHit>) -> bool {
    answer matches Some(hit) ==> hit.wf()
}

/// The unit vector that points up.
pub open spec fn up() -> Vector {
    Vector { x: 0, y: ONE as int, z: 0 }
}

/// The unit vector that points down.
pub open spec fn down() -> Vector {
    Vector { x: 0, y: MINUS_ONE as int, z: 0 }
}

/// A surface gives traction when its normal has more than `cutoff` along
/// the up direction.
pub open spec fn has_traction(normal: Vector, cutoff: int) -> bool {
    normal.dot(up()) > cutoff
}

/// The ground under the controller.
#[derive(Clone, Copy, Debug, PartialEq, Eq, Structural)]
pub struct GroundHit {
    /// Distance from the controller down to the ground.
    pub time_of_impact: i64,
    /// Normal of the ground.
    pub normal: Vec3,
    /// Whether the ground is flat enough to walk on.
    pub traction: bool,
}

impl GroundHit {
    /// The distance is storable and the normal has components between
    /// minus one and one.
    pub open spec fn wf(&self) -> bool {
        &&& bounded(self.time_of_impact as int)
        &&& self.normal@.within(ONE as int)
    }

    /// Tells whether the distance is storable and the normal has components
    /// between minus one and one.
    pub fn is_valid(&self) -> (r: bool)
        ensures
            r == self.wf(),
    {
        let n = self.normal;
        -LIMIT <= self.time_of_impact && self.time_of_impact <= LIMIT
            && -ONE <= n.x && n.x <= ONE && -ONE <= n.y && n.y <= ONE && -ONE <= n.z && n.z <= ONE
    }
}

/// The ground that the answer to the ground probe shows: none where nothing
/// was hit, and none where the hit has no normal.
pub open spec fn ground_of(answer: Option<CastHit>, cutoff: int) -> Option<GroundHit> {
    match answer {
        Some(CastHit { time_of_impact, normal: Some(normal) }) => Some(
            GroundHit { time_of_impact, normal, traction: has_traction(normal@, cutoff) },
        ),
        _ => None,
    }
}

/// `probe` is the probe that looks for ground: the collider, narrowed, swept
/// down from the controller's position over the grounded distance.
pub open spec fn is_ground_probe(
    probe: Probe,
    position: Vec3,
    collider: ColliderShape,
    height: int,
) -> bool {
    &&& probe matches Probe::Shape { origin, direction, shape, max_distance }
    &&& origin == position
    &&& direction@ == down()
    &&& collider.has_size(shape, height, SLIGHT_SCALE_DOWN as int)
    &&& max_distance == GROUNDED_DISTANCE
}

/// The up direction has exactly a normal's vertical component along it.
pub proof fn lemma_dot_up(normal: Vector)
    ensures
        normal.dot(up()) == normal.y,
{
    assert(normal.inner(up()) == normal.y * ONE) by (nonlinear_arith)
        requires
            normal.inner(up()) == normal.x * 0 + normal.y * ONE + normal.z * 0,
    ;
}

/// Tells whether a surface with this normal gives traction.
pub fn traction_of(normal: Vec3, cutoff: i64) -> (r: bool)
    ensures
        r == has_traction(normal@, cutoff as int),
{
    proof {
        lemma_dot_up(normal@);
    }
    normal.y > cutoff
}

/// The probe that looks for ground.
pub fn ground_probe(position: Vec3, collider: &ColliderShape, height: i64) -> (r: Probe)
    requires
        collider.wf(),
        magnitude(height as int),
    ensures
        is_ground_probe(r, position, *collider, height as int),
{
    Probe::Shape {
        origin: position,
        direction: Vec3 { x: 0, y: MINUS_ONE, z: 0 },
        shape: collider.narrowed(height, SLIGHT_SCALE_DOWN),
        max_distance: GROUNDED_DISTANCE,
    }
}

/// Reads the answer to the ground probe.
pub fn classify_ground(answer: Option<CastHit>, cutoff: i64) -> (r: Option<GroundHit>)
    ensures
        r == ground_of(answer, cutoff as int),
        answer_wf(answer) ==> (r matches Some(hit) ==> hit.wf()),
{
    match answer {
        Some(CastHit { time_of_impact, normal: Some(normal) }) => Some(
            GroundHit { time_of_impact, normal, traction: traction_of(normal, cutoff) },
        ),
        _ => None,
    }
}

} // verus!
