//! The tuning of one controller, fixed when the controller is made.

use vstd::prelude::*;
use crate::fixed::{bounded, fraction, magnitude, LIMIT, ONE};

verus! {

/// Tuning of one controller. All fields are fixed-point numbers.
#[derive(Clone, Copy, Debug, PartialEq, Eq, Structural)]
pub struct ControllerConfig {
    /// Downward acceleration.
    pub gravity: i64,
    /// Largest wished speed while standing on the ground.
    pub walk_speed_cap: i64,
    /// Largest wished speed while crouching.
    pub crouch_speed_cap: i64,
    /// Factor applied to the forward axis of the movement input.
    pub forward_speed: i64,
    /// Factor applied to the strafe axis of the movement input.
    pub side_speed: i64,
    /// Acceleration on the ground.
    pub acceleration: i64,
    /// Acceleration in the air.
    pub air_acceleration: i64,
    /// Largest wished speed in the air.
    pub air_speed_cap: i64,
    /// Largest lateral speed in the air.
    pub max_air_speed: i64,
    /// Friction coefficient.
    pub friction: i64,
    /// Speed below which friction acts as if the controller moved this fast.
    pub stop_speed: i64,
    /// Lateral speed at or below which friction stops the controller.
    pub friction_speed_cutoff: i64,
    /// Cosine of the steepest slope that still gives traction.
    pub traction_normal_cutoff: i64,
    /// Vertical speed right after a jump.
    pub jump_speed: i64,
    /// Rate at which the collider shrinks while crouch is held.
    pub crouch_speed: i64,
    /// Rate at which the collider grows back.
    pub uncrouch_speed: i64,
    /// Collider height when fully crouched.
    pub crouch_height: i64,
    /// Collider height when standing.
    pub upright_height: i64,
    /// Highest ledge that is climbed without a jump.
    pub step_offset: i64,
    /// Radians of look per unit of pointer motion.
    pub sensitivity: i64,
}

impl ControllerConfig {
    /// The configuration can be used: every rate, cap and height is a
    /// storable non-negative quantity, the others are storable, and the
    /// crouched collider is no taller than the upright one.
    pub open spec fn wf(&self) -> bool {
        &&& magnitude(self.gravity as int)
        &&& magnitude(self.walk_speed_cap as int)
        &&& magnitude(self.crouch_speed_cap as int)
        &&& bounded(self.forward_speed as int)
        &&& bounded(self.side_speed as int)
        &&& magnitude(self.acceleration as int)
        &&& magnitude(self.air_acceleration as int)
        &&& magnitude(self.air_speed_cap as int)
        &&& magnitude(self.max_air_speed as int)
        &&& magnitude(self.friction as int)
        &&& bounded(self.stop_speed as int)
        &&& magnitude(self.friction_speed_cutoff as int)
        &&& fraction(self.traction_normal_cutoff as int)
        &&& bounded(self.jump_speed as int)
        &&& magnitude(self.crouch_speed as int)
        &&& magnitude(self.uncrouch_speed as int)
        &&& magnitude(self.crouch_height as int)
        &&& magnitude(self.upright_height as int)
        &&& self.crouch_height <= self.upright_height
        &&& magnitude(self.step_offset as int)
        &&& bounded(self.sensitivity as int)
    }

    /// Tells whether the configuration can be used.
    pub fn is_valid(&self) -> (r: bool)
        ensures
            r == self.wf(),
    {
        is_magnitude(self.gravity) && is_magnitude(self.walk_speed_cap) && is_magnitude(
            self.crouch_speed_cap,
        ) && is_bounded(self.forward_speed) && is_bounded(self.side_speed) && is_magnitude(
            self.acceleration,
        ) && is_magnitude(self.air_acceleration) && is_magnitude(self.air_speed_cap)
            && is_magnitude(self.max_air_speed) && is_magnitude(self.friction) && is_bounded(
            self.stop_speed,
        ) && is_magnitude(self.friction_speed_cutoff) && -ONE <= self.traction_normal_cutoff
            && self.traction_normal_cutoff <= ONE && is_bounded(self.jump_speed) && is_magnitude(
            self.crouch_speed,
        ) && is_magnitude(self.uncrouch_speed) && is_magnitude(self.crouch_height) && is_magnitude(
            self.upright_height,
        ) && self.crouch_height <= self.upright_height && is_magnitude(self.step_offset)
            && is_bounded(self.sensitivity)
    }
}

/// Tells whether `x` is a storable quantity.
pub fn is_bounded(x: i64) -> (r: bool)
    ensures
        r == bounded(x as int),
{
    -LIMIT <= x && x <= LIMIT
}

/// Tells whether `x` is a storable quantity that is not negative.
pub fn is_magnitude(x: i64) -> (r: bool)
    ensures
        r == magnitude(x as int),
{
    0 <= x && x <= LIMIT
}

} // verus!
