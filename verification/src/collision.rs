//! The collision-reset protocol.
//!
//! The physics engine reports, per frame, the pairs of bodies that began or
//! ceased overlapping. When a collision starts and either body is the
//! controllable entity, the jump timer is force-reset: that ends the glide
//! and lets the next jump press start the timer again. Nothing happens on a
//! collision that stops.
use vstd::prelude::*;

use crate::timer::{timer_reset, Timer};

verus! {

/// One physics notification: two bodies, named by the engine's entity
/// identifiers, began or ceased overlapping.
#[derive(Clone, Copy, Debug, PartialEq, Eq, Structural)]
pub enum CollisionEvent {
    Started(u64, u64),
    Stopped(u64, u64),
}

/// Whether this event makes the jump timer reset: a collision that started
/// and involves the player's entity on either side.
pub open spec fn event_resets(ev: CollisionEvent, player_id: u64) -> bool {
    match ev {
        CollisionEvent::Started(a, b) => a == player_id || b == player_id,
        CollisionEvent::Stopped(_, _) => false,
    }
}

/// Whether any event of the frame makes the jump timer reset.
pub open spec fn any_event_resets(events: Seq<CollisionEvent>, player_id: u64) -> bool {
    exists|i: int| 0 <= i < events.len() && #[trigger] event_resets(events[i], player_id)
}

/// React to one frame's collision events: if any started collision involves
/// the player, the jump timer is force-reset; otherwise it is untouched.
pub fn player_collision(events: &Vec<CollisionEvent>, player_id: u64, jump_timer: &mut Timer)
    ensures
        any_event_resets(events@, player_id) ==> *final(jump_timer) == timer_reset(
            *old(jump_timer),
        ),
        !any_event_resets(events@, player_id) ==> *final(jump_timer) == *old(jump_timer),
{
    let n = events.len();
    let mut i: usize = 0;
    while i < n
        invariant
            n == events@.len(),
            0 <= i <= n,
            any_event_resets(events@.take(i as int), player_id) ==> *jump_timer == timer_reset(
                *old(jump_timer),
            ),
            !any_event_resets(events@.take(i as int), player_id) ==> *jump_timer == *old(
                jump_timer,
            ),
        decreases n - i,
    {
        let ev = events[i];
        let hit = match ev {
            CollisionEvent::Started(a, b) => a == player_id || b == player_id,
            CollisionEvent::Stopped(_, _) => false,
        };
        if hit {
            jump_timer.reset();
        }
        proof {
            assert(events@.take(i + 1) == events@.take(i as int).push(events@[i as int]));
            if any_event_resets(events@.take(i + 1), player_id) && !any_event_resets(
                events@.take(i as int),
                player_id,
            ) {
                let j = choose|j: int|
                    0 <= j < events@.take(i + 1).len() && #[trigger] event_resets(
                        events@.take(i + 1)[j],
                        player_id,
                    );
                assert(j == i);
            }
            if event_resets(events@[i as int], player_id) {
                assert(events@.take(i + 1)[i as int] == events@[i as int]);
            }
        }
        i = i + 1;
    }
    proof {
        assert(events@.take(n as int) == events@);
    }
}

} // verus!
