//! The state of one controller between ticks.

use vstd::prelude::*;
use crate::collider::ColliderShape;
use crate::config::ControllerConfig;
use crate::fixed::{bounded, clamp, clamp_to, LIMIT};
use crate::intent::{InputIntent, PITCH_LIMIT};
use crate::vector::{Vec3, Vector};

verus! {

/// One controller: where it is, how it moves, where it looks, how tall it
/// is, and for how many ticks in a row it has stood on ground.
#[derive(Clone, Copy, Debug, PartialEq, Eq, Structural)]
pub struct ControllerState {
    pub position: Vec3,
    pub velocity: Vec3,
    /// Radians.
    pub yaw: i64,
    /// Radians, within `PITCH_LIMIT` of level.
    pub pitch: i64,
    /// Height of the collider, between the crouched and the upright height.
    pub height: i64,
    /// Ticks in a row on ground; zero right after a tick that found none.
    pub ground_tick: u8,
    pub collider_shape: ColliderShape,
}

impl ControllerState {
    /// The state is one that the solver keeps: position, velocity and yaw
    /// storable, the pitch within its limit, the height between the crouched
    /// and the upright height of `config`.
    pub open spec fn wf(&self, config: ControllerConfig) -> bool {
        &&& self.position@.bounded()
        &&& self.velocity@.bounded()
        &&& bounded(self.yaw as int)
        &&& -PITCH_LIMIT <= self.pitch <= PITCH_LIMIT
        &&& config.crouch_height <= self.height <= config.upright_height
        &&& self.collider_shape.wf()
    }

    /// Tells whether the state is one that the solver keeps.
    pub fn is_valid(&self, config: &ControllerConfig) -> (r: bool)
        ensures
            r == self.wf(*config),
    {
        is_stored(self.position) && is_stored(self.velocity) && -LIMIT <= self.yaw && self.yaw
            <= LIMIT && -PITCH_LIMIT <= self.pitch && self.pitch <= PITCH_LIMIT
            && config.crouch_height <= self.height && self.height <= config.upright_height
            && self.collider_shape.is_valid()
    }

    /// A controller at rest at `position`. The pitch and the height are
    /// moved into their ranges.
    pub fn new(
        config: &ControllerConfig,
        collider_shape: ColliderShape,
        position: Vec3,
        yaw: i64,
        pitch: i64,
        height: i64,
    ) -> (r: ControllerState)
        requires
            config.wf(),
            collider_shape.wf(),
            position@.bounded(),
            bounded(yaw as int),
        ensures
            r.wf(*config),
            r.position == position,
            r.velocity@ == Vector::zero(),
            r.yaw == yaw,
            r.pitch == clamp(pitch as int, -PITCH_LIMIT, PITCH_LIMIT as int),
            r.height == clamp(
                height as int,
                config.crouch_height as int,
                config.upright_height as int,
            ),
            r.ground_tick == 0,
            r.collider_shape == collider_shape,
    {
        ControllerState {
            position,
            velocity: Vec3::zero(),
            yaw,
            pitch: clamp_to(pitch, -PITCH_LIMIT, PITCH_LIMIT),
            height: clamp_to(height, config.crouch_height, config.upright_height),
            ground_tick: 0,
            collider_shape,
        }
    }

    /// Turns the controller to where the intent looks. The pitch is kept
    /// within its limit.
    pub fn look(&mut self, intent: &InputIntent)
        requires
            bounded(intent.yaw as int),
        ensures
            final(self).yaw == intent.yaw,
            final(self).pitch == clamp(intent.pitch as int, -PITCH_LIMIT, PITCH_LIMIT as int),
            final(self).position == old(self).position,
            final(self).velocity == old(self).velocity,
            final(self).height == old(self).height,
            final(self).ground_tick == old(self).ground_tick,
            final(self).collider_shape == old(self).collider_shape,
            forall|config: ControllerConfig| old(self).wf(config) ==> final(self).wf(config),
    {
        self.yaw = intent.yaw;
        self.pitch = clamp_to(intent.pitch, -PITCH_LIMIT, PITCH_LIMIT);
    }
}

/// Tells whether every component of `v` is a storable quantity.
pub fn is_stored(v: Vec3) -> (r: bool)
    ensures
        r == v@.bounded(),
{
    -LIMIT <= v.x && v.x <= LIMIT && -LIMIT <= v.y && v.y <= LIMIT && -LIMIT <= v.z && v.z <= LIMIT
}

} // verus!
