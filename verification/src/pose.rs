//! The pose that is shown: the controller's position with the camera offset,
//! and where it looks.

use vstd::prelude::*;
use crate::fixed::bounded;
use crate::state::ControllerState;
use crate::vector::Vec3;

verus! {

/// Where the camera stands and where it looks. The yaw turns about the
/// vertical axis first, the pitch about the camera's own lateral axis then.
#[derive(Clone, Copy, Debug, PartialEq, Eq, Structural)]
pub struct RenderPose {
    pub position: Vec3,
    /// Radians.
    pub yaw: i64,
    /// Radians.
    pub pitch: i64,
}

/// The pose to show for a controller: its position, moved up by
/// `camera_offset`, and its yaw and pitch.
pub fn project_pose(state: &ControllerState, camera_offset: i64) -> (r: RenderPose)
    requires
        state.position@.bounded(),
        bounded(camera_offset as int),
    ensures
        r.position@ == state.position@.with_y(state.position.y + camera_offset),
        r.yaw == state.yaw,
        r.pitch == state.pitch,
{
    RenderPose {
        position: Vec3 {
            x: state.position.x,
            y: state.position.y + camera_offset,
            z: state.position.z,
        },
        yaw: state.yaw,
        pitch: state.pitch,
    }
}

} // verus!
