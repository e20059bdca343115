//! The animation state set, the per-entity old/current state pair, and the
//! sprite frame playback that the pair drives.
//!
//! Each entity keeps the previously committed animation state beside the state
//! requested this tick. When the two differ on a playback tick, the sprite
//! frame index resets to zero and the transition is acknowledged; otherwise
//! the index advances modulo the active atlas's frame count, producing the
//! looping playback of the current animation.
use vstd::prelude::*;

use crate::timer::{Timer, timer_ticked};
use crate::FRAME_TIMER_MS;

verus! {

/// The discrete category of character animation currently playing. Each value
/// selects one texture atlas.
#[derive(Clone, Copy, Debug, PartialEq, Eq, Structural)]
pub enum AnimState {
    Idle,
    Run,
    Attack,
    Jump,
    Glide,
}

/// The per-entity pair of animation states: `prev` is the previously
/// committed state, `current` the state requested this tick. A difference
/// between the two marks a transition that has not yet been acknowledged by
/// the sprite playback.
#[derive(Clone, Copy, Debug, PartialEq, Eq, Structural)]
pub struct AnimStateTuple {
    pub prev: Option<AnimState>,
    pub current: Option<AnimState>,
}

impl AnimStateTuple {
    /// Both fields hold a state. This holds from entity spawn on and every
    /// operation of this library preserves it.
    pub open spec fn wf(self) -> bool {
        self.prev is Some && self.current is Some
    }

    /// The pair as created at player-entity spawn: both fields Idle.
    pub fn new() -> (t: AnimStateTuple)
        ensures
            t == (AnimStateTuple {
                prev: Some(AnimState::Idle),
                current: Some(AnimState::Idle),
            }),
    {
        AnimStateTuple { prev: Some(AnimState::Idle), current: Some(AnimState::Idle) }
    }
}

/// The sprite playback state of one entity: the repeating timer that paces
/// frame changes, and the index of the frame currently shown.
#[derive(Clone, Copy, Debug, PartialEq, Eq, Structural)]
pub struct SpriteAnim {
    pub frame_timer: Timer,
    pub index: u32,
}

/// The frame index that follows `index` in an atlas of `frame_count` frames.
pub open spec fn frame_advanced(index: u32, frame_count: u32) -> u32 {
    (((index + 1) as int) % (frame_count as int)) as u32
}

/// The frame index after `n` advances from `index` in an atlas of
/// `frame_count` frames.
pub open spec fn frame_advanced_n(index: u32, frame_count: u32, n: nat) -> u32
    decreases n,
{
    if n == 0 {
        index
    } else {
        frame_advanced(frame_advanced_n(index, frame_count, (n - 1) as nat), frame_count)
    }
}

/// The playback pair (sprite, state pair) after one simulation tick of
/// `delta_ms` milliseconds against an atlas of `frame_count` frames.
pub open spec fn playback_ticked(
    sprite: SpriteAnim,
    tuple: AnimStateTuple,
    delta_ms: u32,
    frame_count: u32,
) -> (SpriteAnim, AnimStateTuple) {
    let timer = timer_ticked(sprite.frame_timer, delta_ms);
    if timer.finished {
        if tuple.prev != tuple.current {
            (
                SpriteAnim { frame_timer: timer, index: 0 },
                AnimStateTuple { prev: tuple.current, current: tuple.current },
            )
        } else {
            (
                SpriteAnim { frame_timer: timer, index: frame_advanced(sprite.index, frame_count) },
                tuple,
            )
        }
    } else {
        (SpriteAnim { frame_timer: timer, index: sprite.index }, tuple)
    }
}

impl SpriteAnim {
    /// The playback state as created at entity spawn: frame index zero and
    /// the frame timer running with its configured period.
    pub fn new() -> (s: SpriteAnim)
        ensures
            s == (SpriteAnim {
                frame_timer: Timer {
                    duration_ms: FRAME_TIMER_MS,
                    elapsed_ms: 0,
                    repeating: true,
                    started: true,
                    finished: false,
                },
                index: 0,
            }),
    {
        let mut frame_timer = Timer::new(FRAME_TIMER_MS, true);
        frame_timer.start(FRAME_TIMER_MS, true);
        SpriteAnim { frame_timer, index: 0 }
    }
}

/// The frame index that follows `index` in an atlas of `frame_count` frames.
pub fn advance_frame(index: u32, frame_count: u32) -> (next: u32)
    requires
        frame_count > 0,
    ensures
        next == frame_advanced(index, frame_count),
{
    if index >= frame_count - 1 {
        let wrapped: u32 = ((index as u64 + 1) % frame_count as u64) as u32;
        proof {
            vstd::arithmetic::div_mod::lemma_mod_bound(index + 1, frame_count as int);
        }
        wrapped
    } else {
        proof {
            vstd::arithmetic::div_mod::lemma_small_mod((index + 1) as nat, frame_count as nat);
        }
        index + 1
    }
}

/// One simulation tick of the sprite playback: advance the frame timer; when
/// it fires, either acknowledge a pending state transition by resetting the
/// frame index to zero, or step the index modulo the atlas's frame count.
pub fn animation_tick(
    sprite: &mut SpriteAnim,
    tuple: &mut AnimStateTuple,
    delta_ms: u32,
    frame_count: u32,
)
    requires
        frame_count > 0,
    ensures
        (*final(sprite), *final(tuple)) == playback_ticked(
            *old(sprite),
            *old(tuple),
            delta_ms,
            frame_count,
        ),
        timer_ticked(old(sprite).frame_timer, delta_ms).finished && old(tuple).prev != old(
            tuple,
        ).current ==> final(sprite).index == 0 && final(tuple).prev == final(tuple).current,
        old(tuple).wf() ==> final(tuple).wf(),
{
    let index = sprite.index;
    sprite.frame_timer.tick(delta_ms);
    if sprite.frame_timer.finished() {
        let same = match (tuple.prev, tuple.current) {
            (Some(p), Some(c)) => p == c,
            (None, None) => true,
            _ => false,
        };
        if !same {
            sprite.index = 0;
            tuple.prev = tuple.current;
        } else {
            sprite.index = advance_frame(index, frame_count);
        }
    }
}

/// Advancing the frame index `n` times lands on the starting index plus `n`,
/// modulo the frame count.
pub proof fn lemma_frame_advanced_n_mod(index: u32, frame_count: u32, n: nat)
    requires
        0 < frame_count,
        index < frame_count,
    ensures
        frame_advanced_n(index, frame_count, n) == ((index + n) % (frame_count as int)) as u32,
    decreases n,
{
    let fc = frame_count as int;
    if n == 0 {
        vstd::arithmetic::div_mod::lemma_small_mod(index as nat, frame_count as nat);
    } else {
        lemma_frame_advanced_n_mod(index, frame_count, (n - 1) as nat);
        let prev = frame_advanced_n(index, frame_count, (n - 1) as nat);
        vstd::arithmetic::div_mod::lemma_mod_bound(index + n - 1, fc);
        vstd::arithmetic::div_mod::lemma_add_mod_noop(index + n - 1, 1, fc);
        if frame_count == 1 {
            vstd::arithmetic::div_mod::lemma_mod_bound(index + n, fc);
            vstd::arithmetic::div_mod::lemma_mod_bound(prev + 1, fc);
        } else {
            vstd::arithmetic::div_mod::lemma_small_mod(1nat, frame_count as nat);
        }
    }
}

/// Round trip of the sprite playback: after as many advances as the atlas has
/// frames, the frame index is back at its starting value.
pub proof fn lemma_frame_cycle(index: u32, frame_count: u32)
    requires
        0 < frame_count,
        index < frame_count,
    ensures
        frame_advanced_n(index, frame_count, frame_count as nat) == index,
{
    lemma_frame_advanced_n_mod(index, frame_count, frame_count as nat);
    vstd::arithmetic::div_mod::lemma_mod_add_multiples_vanish(index as int, frame_count as int);
    vstd::arithmetic::div_mod::lemma_small_mod(index as nat, frame_count as nat);
}

} // verus!
