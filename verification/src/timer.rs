//! Named countdown / repeating timers.
//!
//! A timer is advanced by the per-frame elapsed time. A one-shot timer's
//! `finished()` becomes true exactly when the cumulative ticked time reaches
//! its duration and stays true until `reset()`. A repeating timer's
//! `finished()` pulses true once per period and wraps its elapsed time.
use vstd::prelude::*;

verus! {

/// A duration-based counter. `started` records whether the timer has been
/// started since construction or its last reset; a timer that has not been
/// started does not advance.
#[derive(Clone, Copy, Debug, PartialEq, Eq, Structural)]
pub struct Timer {
    pub duration_ms: u32,
    pub elapsed_ms: u32,
    pub repeating: bool,
    pub started: bool,
    pub finished: bool,
}

/// The timer as it stands after advancing by `delta_ms` milliseconds.
pub open spec fn timer_ticked(t: Timer, delta_ms: u32) -> Timer {
    if !t.started {
        t
    } else if t.repeating {
        if t.duration_ms == 0 {
            Timer { elapsed_ms: 0, finished: true, ..t }
        } else if t.elapsed_ms + delta_ms >= t.duration_ms {
            Timer {
                elapsed_ms: ((t.elapsed_ms + delta_ms) % (t.duration_ms as int)) as u32,
                finished: true,
                ..t
            }
        } else {
            Timer { elapsed_ms: (t.elapsed_ms + delta_ms) as u32, finished: false, ..t }
        }
    } else {
        if t.elapsed_ms + delta_ms >= t.duration_ms {
            Timer { elapsed_ms: t.duration_ms, finished: true, ..t }
        } else {
            Timer { elapsed_ms: (t.elapsed_ms + delta_ms) as u32, ..t }
        }
    }
}

/// The timer as it stands after `reset()`: back to the not-yet-started state.
pub open spec fn timer_reset(t: Timer) -> Timer {
    Timer { elapsed_ms: 0, started: false, finished: false, ..t }
}

/// The timer as it stands after being (re)started: running from zero elapsed
/// time, with its duration and repeat behaviour unchanged.
pub open spec fn timer_restarted(t: Timer) -> Timer {
    Timer { elapsed_ms: 0, started: true, finished: false, ..t }
}

impl Timer {
    /// A fresh timer with the given duration and repeat behaviour, not yet
    /// started.
    pub fn new(duration_ms: u32, repeating: bool) -> (t: Timer)
        ensures
            t == (Timer {
                duration_ms,
                elapsed_ms: 0,
                repeating,
                started: false,
                finished: false,
            }),
    {
        Timer { duration_ms, elapsed_ms: 0, repeating, started: false, finished: false }
    }

    /// (Re)start the timer with a new duration and repeat behaviour; elapsed
    /// time restarts from zero and the completion flag is cleared.
    pub fn start(&mut self, duration_ms: u32, repeating: bool)
        ensures
            *final(self) == (Timer {
                duration_ms,
                elapsed_ms: 0,
                repeating,
                started: true,
                finished: false,
            }),
    {
        self.duration_ms = duration_ms;
        self.elapsed_ms = 0;
        self.repeating = repeating;
        self.started = true;
        self.finished = false;
    }

    /// (Re)start the timer keeping its configured duration and repeat
    /// behaviour.
    pub fn restart(&mut self)
        ensures
            *final(self) == timer_restarted(*old(self)),
    {
        self.elapsed_ms = 0;
        self.started = true;
        self.finished = false;
    }

    /// Advance the timer by the frame's elapsed time. A timer that has not
    /// been started is left unchanged.
    pub fn tick(&mut self, delta_ms: u32)
        ensures
            *final(self) == timer_ticked(*old(self), delta_ms),
    {
        if !self.started {
            return ;
        }
        let total: u64 = self.elapsed_ms as u64 + delta_ms as u64;
        if self.repeating {
            if self.duration_ms == 0 {
                self.elapsed_ms = 0;
                self.finished = true;
            } else if total >= self.duration_ms as u64 {
                self.elapsed_ms = (total % self.duration_ms as u64) as u32;
                self.finished = true;
            } else {
                self.elapsed_ms = total as u32;
                self.finished = false;
            }
        } else {
            if total >= self.duration_ms as u64 {
                self.elapsed_ms = self.duration_ms;
                self.finished = true;
            } else {
                self.elapsed_ms = total as u32;
            }
        }
    }

    /// Whether the timer has reached its duration (one-shot), or fired during
    /// its latest tick (repeating).
    pub fn finished(&self) -> (b: bool)
        ensures
            b == self.finished,
    {
        self.finished
    }

    /// Cumulative ticked time, in milliseconds, since the timer was last
    /// (re)started; for a repeating timer, since it last wrapped.
    pub fn elapsed_ms(&self) -> (e: u32)
        ensures
            e == self.elapsed_ms,
    {
        self.elapsed_ms
    }

    /// Whether the timer has been started since construction or its last
    /// reset.
    pub fn started(&self) -> (b: bool)
        ensures
            b == self.started,
    {
        self.started
    }

    /// Put the timer back into the not-yet-started state: elapsed time zero
    /// and the completion flag cleared.
    pub fn reset(&mut self)
        ensures
            *final(self) == timer_reset(*old(self)),
    {
        self.elapsed_ms = 0;
        self.started = false;
        self.finished = false;
    }
}

/// Resetting a timer that is already in the not-yet-started state leaves it
/// unchanged: `finished` stays false and the elapsed time stays zero.
pub proof fn lemma_reset_idempotent(t: Timer)
    requires
        !t.started,
        t.elapsed_ms == 0,
        !t.finished,
    ensures
        timer_reset(t) == t,
{
}

} // verus!
