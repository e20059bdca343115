//! Discrete keyboard state and the velocity model the input mapper mutates.
//!
//! The host engine polls the keyboard; each frame it hands this library one
//! [`KeyInput`] snapshot: for each of the four directional keys whether it was
//! just pressed, is held, was just released or is inactive, and for the jump
//! and attack keys the just-pressed and held flags the state machine reads.
use vstd::prelude::*;

verus! {

/// What one directional key did this frame. `JustPressed` means the key went
/// down this frame (and is down); `Held` means it is down but did not go down
/// this frame.
#[derive(Clone, Copy, Debug, PartialEq, Eq, Structural)]
pub enum KeyActivity {
    JustPressed,
    Held,
    JustReleased,
    Inactive,
}

/// Whether a key with this activity is currently down.
pub open spec fn key_down(k: KeyActivity) -> bool {
    k == KeyActivity::JustPressed || k == KeyActivity::Held
}

/// Whether a key with this activity is currently down.
pub fn key_is_down(k: KeyActivity) -> (b: bool)
    ensures
        b == key_down(k),
{
    match k {
        KeyActivity::JustPressed => true,
        KeyActivity::Held => true,
        _ => false,
    }
}

/// One frame's snapshot of the keys the player logic reads.
#[derive(Clone, Copy, Debug, PartialEq, Eq, Structural)]
pub struct KeyInput {
    pub left: KeyActivity,
    pub right: KeyActivity,
    pub up: KeyActivity,
    pub down: KeyActivity,
    pub jump_just_pressed: bool,
    pub jump_held: bool,
    pub attack_just_pressed: bool,
    pub attack_held: bool,
}

impl KeyInput {
    /// A snapshot with no key active.
    pub fn idle() -> (k: KeyInput)
        ensures
            k == (KeyInput {
                left: KeyActivity::Inactive,
                right: KeyActivity::Inactive,
                up: KeyActivity::Inactive,
                down: KeyActivity::Inactive,
                jump_just_pressed: false,
                jump_held: false,
                attack_just_pressed: false,
                attack_held: false,
            }),
    {
        KeyInput {
            left: KeyActivity::Inactive,
            right: KeyActivity::Inactive,
            up: KeyActivity::Inactive,
            down: KeyActivity::Inactive,
            jump_just_pressed: false,
            jump_held: false,
            attack_just_pressed: false,
            attack_held: false,
        }
    }

    /// Some directional key is currently down.
    pub open spec fn any_dir_down(self) -> bool {
        key_down(self.left) || key_down(self.right) || key_down(self.up) || key_down(self.down)
    }

    /// Some directional key was just released.
    pub open spec fn any_dir_released(self) -> bool {
        self.left == KeyActivity::JustReleased || self.right == KeyActivity::JustReleased
            || self.up == KeyActivity::JustReleased || self.down == KeyActivity::JustReleased
    }
}

/// The linear velocity the physics engine integrates, in whole world units
/// per second along each axis.
#[derive(Clone, Copy, Debug, PartialEq, Eq, Structural)]
pub struct Velocity {
    pub x: i64,
    pub y: i64,
    pub z: i64,
}

impl Velocity {
    /// The zero velocity.
    pub fn zero() -> (v: Velocity)
        ensures
            v == (Velocity { x: 0, y: 0, z: 0 }),
    {
        Velocity { x: 0, y: 0, z: 0 }
    }
}

} // verus!
