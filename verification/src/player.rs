//! The player animation/movement state machine: one simulation tick of the
//! input-to-motion mapper.
//!
//! Each tick the transition rules are checked in strict priority order and
//! the first match wins: a running jump timer keeps the jump uninterrupted; a
//! finished jump timer holds the glide until a landing; a running attack
//! timer keeps the attack uninterrupted; a finished attack timer is cleared
//! and control returns to normal handling; then a fresh jump press, a fresh
//! attack press, held directional keys (Run) and a directional release (Idle)
//! are tried in that order. Directional keys accelerate the player step-wise
//! toward a terminal velocity; a release stops the axis.
use vstd::prelude::*;

use crate::anim::{AnimState, AnimStateTuple};
use crate::input::{key_down, key_is_down, KeyActivity, KeyInput, Velocity};
use crate::timer::{timer_reset, timer_restarted, timer_ticked, Timer};
use crate::{ATTACK_TIMER_MS, JUMP_TIMER_MS};

verus! {

/// Cap magnitude on the velocity a directional key can build up along its
/// axis, in world units per second.
pub const VEL_CAP: i64 = 100;

/// Velocity added per tick by a held horizontal key, before the cap applies.
pub const VEL_STEP_X: i64 = 120;

/// Velocity added per tick by a held vertical key, before the cap applies.
pub const VEL_STEP_Y: i64 = 100;

/// Upward velocity impulse applied when a jump starts.
pub const JUMP_IMPULSE_Y: i64 = 50;

/// Everything of the player that this core owns or writes: the animation
/// state pair, the velocity and sprite mirroring the renderer and physics
/// read, the atlas choice, and the two one-shot timers that gate input.
#[derive(Clone, Copy, Debug, PartialEq, Eq, Structural)]
pub struct PlayerState {
    pub anim: AnimStateTuple,
    pub vel: Velocity,
    pub flip_x: bool,
    pub atlas: AnimState,
    pub jump_timer: Timer,
    pub attack_timer: Timer,
}

/// Velocity along one axis after a key press toward the negative direction:
/// step toward `-VEL_CAP`, clamped there, once the cap is reached no change.
pub open spec fn axis_toward_neg(v: i64, step: i64) -> i64 {
    if v > -VEL_CAP {
        if v - step < -VEL_CAP {
            (-VEL_CAP) as i64
        } else {
            (v - step) as i64
        }
    } else {
        v
    }
}

/// Velocity along one axis after a key press toward the positive direction:
/// step toward `VEL_CAP`, clamped there, once the cap is reached no change.
pub open spec fn axis_toward_pos(v: i64, step: i64) -> i64 {
    if v < VEL_CAP {
        if v + step > VEL_CAP {
            VEL_CAP
        } else {
            (v + step) as i64
        }
    } else {
        v
    }
}

/// Velocity along one axis after releasing the key that drove it negative:
/// a component still moving that way stops.
pub open spec fn axis_clear_neg(v: i64) -> i64 {
    if v < 0 {
        0
    } else {
        v
    }
}

/// Velocity along one axis after releasing the key that drove it positive:
/// a component still moving that way stops.
pub open spec fn axis_clear_pos(v: i64) -> i64 {
    if v > 0 {
        0
    } else {
        v
    }
}

/// Horizontal velocity after one tick of the left and right keys, the left
/// key applied first.
pub open spec fn axis_x_after(v: i64, left: KeyActivity, right: KeyActivity) -> i64 {
    let v1 = match left {
        KeyActivity::JustPressed => axis_toward_neg(v, VEL_STEP_X),
        KeyActivity::Held => axis_toward_neg(v, VEL_STEP_X),
        KeyActivity::JustReleased => axis_clear_neg(v),
        KeyActivity::Inactive => v,
    };
    match right {
        KeyActivity::JustPressed => axis_toward_pos(v1, VEL_STEP_X),
        KeyActivity::Held => axis_toward_pos(v1, VEL_STEP_X),
        KeyActivity::JustReleased => axis_clear_pos(v1),
        KeyActivity::Inactive => v1,
    }
}

/// Vertical velocity after one tick of the up and down keys, the up key
/// applied first.
pub open spec fn axis_y_after(v: i64, up: KeyActivity, down: KeyActivity) -> i64 {
    let v1 = match up {
        KeyActivity::JustPressed => axis_toward_pos(v, VEL_STEP_Y),
        KeyActivity::Held => axis_toward_pos(v, VEL_STEP_Y),
        KeyActivity::JustReleased => axis_clear_pos(v),
        KeyActivity::Inactive => v,
    };
    match down {
        KeyActivity::JustPressed => axis_toward_neg(v1, VEL_STEP_Y),
        KeyActivity::Held => axis_toward_neg(v1, VEL_STEP_Y),
        KeyActivity::JustReleased => axis_clear_neg(v1),
        KeyActivity::Inactive => v1,
    }
}

/// The velocity after one tick of all four directional keys.
pub open spec fn vel_after_keys(v: Velocity, keys: KeyInput) -> Velocity {
    Velocity {
        x: axis_x_after(v.x, keys.left, keys.right),
        y: axis_y_after(v.y, keys.up, keys.down),
        z: v.z,
    }
}

/// The sprite mirroring flag after one tick: left movement turns it on,
/// right movement turns it off, the right key applied last.
pub open spec fn flip_after_keys(flip: bool, keys: KeyInput) -> bool {
    if key_down(keys.right) {
        false
    } else if key_down(keys.left) {
        true
    } else {
        flip
    }
}

/// The state after the movement rules, reached only when neither the jump
/// timer nor the attack timer blocks input: a fresh jump press, a fresh
/// attack press, held directional keys (Run), then a directional release
/// (Idle), in that priority order.
pub open spec fn movement_step(s: PlayerState, keys: KeyInput) -> PlayerState {
    if keys.jump_just_pressed {
        PlayerState {
            anim: AnimStateTuple { prev: s.anim.prev, current: Some(AnimState::Jump) },
            vel: Velocity { x: s.vel.x, y: (s.vel.y + JUMP_IMPULSE_Y) as i64, z: s.vel.z },
            atlas: AnimState::Jump,
            jump_timer: timer_restarted(s.jump_timer),
            ..s
        }
    } else if keys.attack_just_pressed {
        PlayerState {
            anim: AnimStateTuple { prev: s.anim.prev, current: Some(AnimState::Attack) },
            vel: Velocity { x: 0, y: 0, z: 0 },
            atlas: AnimState::Attack,
            attack_timer: timer_restarted(s.attack_timer),
            ..s
        }
    } else {
        let current = if keys.any_dir_down() {
            Some(AnimState::Run)
        } else if keys.any_dir_released() && !keys.jump_held && !keys.attack_held {
            Some(AnimState::Idle)
        } else {
            s.anim.current
        };
        PlayerState {
            anim: AnimStateTuple { prev: s.anim.prev, current },
            vel: vel_after_keys(s.vel, keys),
            flip_x: flip_after_keys(s.flip_x, keys),
            atlas: match current {
                Some(a) => a,
                None => s.atlas,
            },
            ..s
        }
    }
}

/// The state after one full tick of the input mapper: the timer-gated rules
/// first, in priority order, then the movement rules when nothing blocks.
pub open spec fn input_step(s: PlayerState, keys: KeyInput, delta_ms: u32) -> PlayerState {
    if s.jump_timer.started && !s.jump_timer.finished {
        PlayerState {
            anim: AnimStateTuple { prev: s.anim.prev, current: Some(AnimState::Jump) },
            jump_timer: timer_ticked(s.jump_timer, delta_ms),
            ..s
        }
    } else if s.jump_timer.started && s.jump_timer.finished {
        PlayerState {
            anim: AnimStateTuple { prev: s.anim.prev, current: Some(AnimState::Glide) },
            atlas: AnimState::Glide,
            ..s
        }
    } else if s.attack_timer.started && !s.attack_timer.finished {
        PlayerState {
            anim: AnimStateTuple { prev: s.anim.prev, current: Some(AnimState::Attack) },
            attack_timer: timer_ticked(s.attack_timer, delta_ms),
            ..s
        }
    } else if s.attack_timer.started && s.attack_timer.finished {
        movement_step(PlayerState { attack_timer: timer_reset(s.attack_timer), ..s }, keys)
    } else {
        movement_step(s, keys)
    }
}

impl PlayerState {
    /// Both animation fields hold a state. Established at spawn and preserved
    /// by every tick.
    pub open spec fn wf(self) -> bool {
        self.anim.wf()
    }

    /// The player as spawned: Idle committed and requested, at rest, facing
    /// right, with the jump and attack timers configured but not started.
    pub fn new() -> (s: PlayerState)
        ensures
            s == (PlayerState {
                anim: AnimStateTuple {
                    prev: Some(AnimState::Idle),
                    current: Some(AnimState::Idle),
                },
                vel: Velocity { x: 0, y: 0, z: 0 },
                flip_x: false,
                atlas: AnimState::Idle,
                jump_timer: Timer {
                    duration_ms: JUMP_TIMER_MS,
                    elapsed_ms: 0,
                    repeating: false,
                    started: false,
                    finished: false,
                },
                attack_timer: Timer {
                    duration_ms: ATTACK_TIMER_MS,
                    elapsed_ms: 0,
                    repeating: false,
                    started: false,
                    finished: false,
                },
            }),
    {
        PlayerState {
            anim: AnimStateTuple::new(),
            vel: Velocity::zero(),
            flip_x: false,
            atlas: AnimState::Idle,
            jump_timer: Timer::new(JUMP_TIMER_MS, false),
            attack_timer: Timer::new(ATTACK_TIMER_MS, false),
        }
    }
}

fn axis_press_neg(v: i64, step: i64) -> (r: i64)
    requires
        0 <= step <= 100000,
    ensures
        r == axis_toward_neg(v, step),
{
    if v > -VEL_CAP {
        let nv = v - step;
        if nv < -VEL_CAP {
            -VEL_CAP
        } else {
            nv
        }
    } else {
        v
    }
}

fn axis_press_pos(v: i64, step: i64) -> (r: i64)
    requires
        0 <= step <= 100000,
    ensures
        r == axis_toward_pos(v, step),
{
    if v < VEL_CAP {
        let nv = v + step;
        if nv > VEL_CAP {
            VEL_CAP
        } else {
            nv
        }
    } else {
        v
    }
}

fn axis_update_x(v: i64, left: KeyActivity, right: KeyActivity) -> (r: i64)
    ensures
        r == axis_x_after(v, left, right),
{
    let v1 = match left {
        KeyActivity::JustPressed => axis_press_neg(v, VEL_STEP_X),
        KeyActivity::Held => axis_press_neg(v, VEL_STEP_X),
        KeyActivity::JustReleased => if v < 0 {
            0
        } else {
            v
        },
        KeyActivity::Inactive => v,
    };
    match right {
        KeyActivity::JustPressed => axis_press_pos(v1, VEL_STEP_X),
        KeyActivity::Held => axis_press_pos(v1, VEL_STEP_X),
        KeyActivity::JustReleased => if v1 > 0 {
            0
        } else {
            v1
        },
        KeyActivity::Inactive => v1,
    }
}

fn axis_update_y(v: i64, up: KeyActivity, down: KeyActivity) -> (r: i64)
    ensures
        r == axis_y_after(v, up, down),
{
    let v1 = match up {
        KeyActivity::JustPressed => axis_press_pos(v, VEL_STEP_Y),
        KeyActivity::Held => axis_press_pos(v, VEL_STEP_Y),
        KeyActivity::JustReleased => if v > 0 {
            0
        } else {
            v
        },
        KeyActivity::Inactive => v,
    };
    match down {
        KeyActivity::JustPressed => axis_press_neg(v1, VEL_STEP_Y),
        KeyActivity::Held => axis_press_neg(v1, VEL_STEP_Y),
        KeyActivity::JustReleased => if v1 < 0 {
            0
        } else {
            v1
        },
        KeyActivity::Inactive => v1,
    }
}

fn movement_tick(s: &mut PlayerState, keys: KeyInput)
    requires
        old(s).vel.y + JUMP_IMPULSE_Y <= i64::MAX,
    ensures
        *final(s) == movement_step(*old(s), keys),
{
    if keys.jump_just_pressed {
        s.anim.current = Some(AnimState::Jump);
        s.jump_timer.restart();
        s.vel.y = s.vel.y + JUMP_IMPULSE_Y;
        s.atlas = AnimState::Jump;
    } else if keys.attack_just_pressed {
        s.anim.current = Some(AnimState::Attack);
        s.attack_timer.restart();
        s.vel.x = 0;
        s.vel.y = 0;
        s.vel.z = 0;
        s.atlas = AnimState::Attack;
    } else {
        let any_down = key_is_down(keys.left) || key_is_down(keys.right) || key_is_down(keys.up)
            || key_is_down(keys.down);
        let any_released = matches!(keys.left, KeyActivity::JustReleased) || matches!(
            keys.right,
            KeyActivity::JustReleased,
        ) || matches!(keys.up, KeyActivity::JustReleased) || matches!(
            keys.down,
            KeyActivity::JustReleased,
        );
        if any_down {
            s.anim.current = Some(AnimState::Run);
        } else if any_released && !keys.jump_held && !keys.attack_held {
            s.anim.current = Some(AnimState::Idle);
        }
        match s.anim.current {
            Some(a) => {
                s.atlas = a;
            },
            None => {},
        }
        s.vel.x = axis_update_x(s.vel.x, keys.left, keys.right);
        s.vel.y = axis_update_y(s.vel.y, keys.up, keys.down);
        if key_is_down(keys.left) {
            s.flip_x = true;
        }
        if key_is_down(keys.right) {
            s.flip_x = false;
        }
    }
}

/// One simulation tick of the input mapper against one key snapshot.
///
/// The resulting state is exactly [`input_step`] of the starting state; in
/// particular, while the jump timer runs no movement or attack input reaches
/// the state, and a finished jump timer holds the player in Glide.
pub fn player_tick(s: &mut PlayerState, keys: KeyInput, delta_ms: u32)
    requires
        old(s).vel.y + JUMP_IMPULSE_Y <= i64::MAX,
    ensures
        *final(s) == input_step(*old(s), keys, delta_ms),
        old(s).wf() ==> final(s).wf(),
{
    if s.jump_timer.started && !s.jump_timer.finished {
        s.anim.current = Some(AnimState::Jump);
        s.jump_timer.tick(delta_ms);
    } else if s.jump_timer.started && s.jump_timer.finished {
        s.anim.current = Some(AnimState::Glide);
        s.atlas = AnimState::Glide;
    } else if s.attack_timer.started && !s.attack_timer.finished {
        s.anim.current = Some(AnimState::Attack);
        s.attack_timer.tick(delta_ms);
    } else if s.attack_timer.started && s.attack_timer.finished {
        s.attack_timer.reset();
        movement_tick(s, keys);
    } else {
        movement_tick(s, keys);
    }
}

/// While the jump timer is running and unfinished, a tick keeps the
/// animation state in Jump and applies no velocity change from movement or
/// attack keys, whatever the key snapshot holds.
pub proof fn lemma_jump_blocks_input(s: PlayerState, keys: KeyInput, delta_ms: u32)
    requires
        s.jump_timer.started,
        !s.jump_timer.finished,
    ensures
        input_step(s, keys, delta_ms).anim.current == Some(AnimState::Jump),
        input_step(s, keys, delta_ms).vel == s.vel,
        input_step(s, keys, delta_ms).flip_x == s.flip_x,
{
}

/// While the attack timer is running and unfinished (and the jump timer does
/// not block first), a tick keeps the animation state in Attack and applies
/// no velocity change from movement or jump keys, whatever the key snapshot
/// holds.
pub proof fn lemma_attack_blocks_input(s: PlayerState, keys: KeyInput, delta_ms: u32)
    requires
        !s.jump_timer.started,
        s.attack_timer.started,
        !s.attack_timer.finished,
    ensures
        input_step(s, keys, delta_ms).anim.current == Some(AnimState::Attack),
        input_step(s, keys, delta_ms).vel == s.vel,
        input_step(s, keys, delta_ms).flip_x == s.flip_x,
{
}

/// After a landing has force-reset the jump timer, the glide is over: with
/// neither timer started, a tick follows the movement rules again, and a
/// fresh jump press enters Jump and starts the jump timer anew.
pub proof fn lemma_reset_reenables_jump(s: PlayerState, keys: KeyInput, delta_ms: u32)
    requires
        !s.jump_timer.started,
        !s.attack_timer.started,
    ensures
        input_step(s, keys, delta_ms) == movement_step(s, keys),
        keys.jump_just_pressed ==> input_step(s, keys, delta_ms).anim.current == Some(
            AnimState::Jump,
        ) && input_step(s, keys, delta_ms).jump_timer.started,
{
}

/// Once the jump timer has finished and as long as no collision has reset
/// it, every tick puts (and keeps) the animation state in Glide, leaves the
/// velocity to the physics engine, and leaves the jump timer finished, so
/// the glide persists until a collision-started event resets the timer.
pub proof fn lemma_glide_until_reset(s: PlayerState, keys: KeyInput, delta_ms: u32)
    requires
        s.jump_timer.started,
        s.jump_timer.finished,
    ensures
        input_step(s, keys, delta_ms).anim.current == Some(AnimState::Glide),
        input_step(s, keys, delta_ms).atlas == AnimState::Glide,
        input_step(s, keys, delta_ms).vel == s.vel,
        input_step(s, keys, delta_ms).jump_timer == s.jump_timer,
{
}

} // verus!
