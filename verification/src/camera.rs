//! The camera follow controller.
//!
//! The camera tracks the player's horizontal position only, with a dead zone
//! derived from the orthographic projection's edges minus a fixed margin.
//! When the player crosses the right dead-zone edge the camera gains a
//! constant rightward velocity, the left edge a constant leftward one, and
//! the velocity snaps to zero once the camera has caught up with the player:
//! a hysteresis controller with exactly three velocity states.
use vstd::prelude::*;

verus! {

/// Horizontal speed of the camera while it is catching up, in world units
/// per second.
pub const CAMERA_SPEED: i64 = 100;

/// Margin subtracted from the projection's half-extent to form the dead-zone
/// edge, in world units.
pub const CAMERA_MARGIN: i64 = 50;

/// The magnitude of `v`.
pub open spec fn abs_val(v: int) -> int {
    if v < 0 {
        -v
    } else {
        v
    }
}

/// The camera's horizontal velocity after one tick: start moving toward a
/// player outside the dead zone, and stop once the camera has caught up
/// with, or passed, the player.
pub open spec fn camera_step(
    cam_x: i64,
    player_x: i64,
    proj_left: i64,
    proj_right: i64,
    vel_x: i64,
) -> i64 {
    let chasing = if player_x > cam_x + abs_val(proj_right - CAMERA_MARGIN) {
        CAMERA_SPEED
    } else if player_x < cam_x - abs_val(proj_left + CAMERA_MARGIN) {
        (-CAMERA_SPEED) as i64
    } else {
        vel_x
    };
    if chasing > 0 && cam_x >= player_x {
        0
    } else if chasing < 0 && cam_x <= player_x {
        0
    } else {
        chasing
    }
}

/// One tick of the camera follow controller: from the camera's and player's
/// horizontal positions, the projection's left and right edges and the
/// camera's current horizontal velocity, the velocity for this frame.
pub fn camera_tick(cam_x: i64, player_x: i64, proj_left: i64, proj_right: i64, vel_x: i64) -> (v:
    i64)
    ensures
        v == camera_step(cam_x, player_x, proj_left, proj_right, vel_x),
        v == CAMERA_SPEED || v == -CAMERA_SPEED || v == 0 || v == vel_x,
{
    let cam = cam_x as i128;
    let player = player_x as i128;
    let right_edge = proj_right as i128 - CAMERA_MARGIN as i128;
    let left_edge = proj_left as i128 + CAMERA_MARGIN as i128;
    let right_abs = if right_edge < 0 {
        -right_edge
    } else {
        right_edge
    };
    let left_abs = if left_edge < 0 {
        -left_edge
    } else {
        left_edge
    };
    let chasing: i64 = if player > cam + right_abs {
        CAMERA_SPEED
    } else if player < cam - left_abs {
        -CAMERA_SPEED
    } else {
        vel_x
    };
    if chasing > 0 && cam_x >= player_x {
        0
    } else if chasing < 0 && cam_x <= player_x {
        0
    } else {
        chasing
    }
}

} // verus!
