//! Core simulation logic for a small 2D platformer: countdown timers, the
//! player animation state machine, the input-to-motion mapper, the
//! collision-reset protocol and the camera follow controller.
//!
//! The host engine owns rendering, physics integration and input polling; each
//! frame it hands this library the elapsed time, a snapshot of the key states
//! and the collision events, and applies the velocities and atlas choices the
//! library hands back. All time is measured in whole milliseconds and all
//! velocities in whole world units per second.
use vstd::prelude::*;

pub mod anim;
pub mod camera;
pub mod collision;
pub mod input;
pub mod player;
pub mod timer;

verus! {

/// Duration of the one-shot jump timer: while it runs, the jump/fall sequence
/// cannot be interrupted by movement or attack input.
pub const JUMP_TIMER_MS: u32 = 700;

/// Duration of the one-shot attack timer: while it runs, the attack animation
/// cannot be interrupted.
pub const ATTACK_TIMER_MS: u32 = 900;

/// Period of the repeating per-entity frame timer that paces sprite playback.
pub const FRAME_TIMER_MS: u32 = 150;

} // verus!
