//! The camera: the markers the follow system is keyed on, and the rule that
//! keeps the view inside the level's horizontal bounds.
//!
//! Easing the camera toward the player is the engine shell's per-frame
//! interpolation; what is verified here is where the camera is allowed to
//! stand once its left and right view edges are known.

use vstd::prelude::*;

verus! {

/// Tags the one camera the follow system moves.
#[derive(Debug, Copy, Clone)]
pub struct MainCamera;

/// Tags a camera the follow system must leave alone.
#[derive(Debug, Copy, Clone)]
pub struct LockedCamera;

/// Tags the debug sprite pinned to the camera's view edge.
#[derive(Debug, Copy, Clone)]
pub struct CameraDebugCircle;

/// The horizontal range the camera's view may show, in milli-units: lowest
/// world coordinate first, highest second.
#[derive(Debug, Copy, Clone, PartialEq, Eq, Structural)]
pub struct CameraBounds(pub i64, pub i64);

/// The widest coordinate the camera rule accepts, in milli-units.
pub const CAMERA_COORD_LIMIT_MILLI: i64 = 1_000_000_000_000;

/// The camera position after holding the view to the bounds: a view edge past
/// the lower bound pushes the camera right by the overshoot, then an edge
/// past the upper bound pushes it left by that overshoot.
pub open spec fn spec_clamp_x(
    bounds: CameraBounds,
    x_milli: int,
    left_milli: int,
    right_milli: int,
) -> int {
    let pushed = if left_milli < bounds.0 {
        bounds.0 + (x_milli - left_milli)
    } else {
        x_milli
    };
    if right_milli > bounds.1 {
        bounds.1 - (right_milli - pushed)
    } else {
        pushed
    }
}

impl CameraBounds {
    /// Hold the camera to the bounds, given where its view's left and right
    /// edges stand in the world.
    pub fn clamp_x(&self, x_milli: i64, left_milli: i64, right_milli: i64) -> (clamped: i64)
        requires
            -CAMERA_COORD_LIMIT_MILLI <= self.0 <= CAMERA_COORD_LIMIT_MILLI,
            -CAMERA_COORD_LIMIT_MILLI <= self.1 <= CAMERA_COORD_LIMIT_MILLI,
            -CAMERA_COORD_LIMIT_MILLI <= x_milli <= CAMERA_COORD_LIMIT_MILLI,
            -CAMERA_COORD_LIMIT_MILLI <= left_milli <= CAMERA_COORD_LIMIT_MILLI,
            -CAMERA_COORD_LIMIT_MILLI <= right_milli <= CAMERA_COORD_LIMIT_MILLI,
        ensures
            clamped == spec_clamp_x(*self, x_milli as int, left_milli as int, right_milli as int),
    {
        let mut x: i64 = x_milli;
        if left_milli < self.0 {
            x = self.0 + (x - left_milli);
        }
        if right_milli > self.1 {
            x = self.1 - (right_milli - x);
        }
        x
    }
}

} // verus!
