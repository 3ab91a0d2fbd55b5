//! Timers that are advanced by hand, once per frame, by the time that has
//! passed. All times are whole nanoseconds.

use vstd::prelude::*;

verus! {

/// Nanoseconds in one second.
pub const NANOS_PER_SECOND: u64 = 1_000_000_000;

/// What a timer does when it reaches its duration.
#[derive(Clone, Copy, Debug, PartialEq, Eq, Structural)]
pub enum TimerMode {
    /// Finish once and stay finished.
    Once,
    /// Finish, keep what ran over the duration, and count on.
    Repeating,
}

/// The time that a run of frames adds up to.
pub open spec fn total_time(deltas: Seq<u64>) -> nat
    decreases deltas.len(),
{
    if deltas.len() == 0 {
        0
    } else {
        total_time(deltas.drop_last()) + deltas.last() as nat
    }
}

/// A timer with explicit state.
///
/// `elapsed` counts up towards `duration`. `finished` records whether the
/// latest tick reached the duration; a `Once` timer keeps it set from then
/// on, a `Repeating` timer only for the tick that crossed a period.
#[derive(Clone, Copy, Debug, PartialEq, Eq, Structural)]
pub struct Timer {
    pub duration: u64,
    pub elapsed: u64,
    pub mode: TimerMode,
    pub finished: bool,
}

impl Timer {
    /// A timer that has not run yet.
    pub open spec fn fresh(duration: u64, mode: TimerMode) -> Timer {
        Timer { duration, elapsed: 0, mode, finished: false }
    }

    /// Whether nothing is left to count: a `Once` timer that has finished.
    pub open spec fn spent(self) -> bool {
        self.mode == TimerMode::Once && self.finished
    }

    /// Whether advancing by `delta` reaches the duration.
    pub open spec fn reaches(self, delta: u64) -> bool {
        self.elapsed + delta >= self.duration
    }

    /// The timer after time `delta` has passed.
    ///
    /// A spent timer stays as it is. Otherwise the time is added; on reaching
    /// the duration a `Once` timer stops exactly there, a `Repeating` timer
    /// keeps the remainder of the division by its period (nothing for a
    /// period of zero).
    pub open spec fn ticked(self, delta: u64) -> Timer {
        if self.spent() {
            self
        } else if self.reaches(delta) {
            let kept = match self.mode {
                TimerMode::Once => self.duration,
                TimerMode::Repeating => if self.duration == 0 {
                    0u64
                } else {
                    ((self.elapsed + delta) % (self.duration as int)) as u64
                },
            };
            Timer { elapsed: kept, finished: true, ..self }
        } else {
            Timer { elapsed: (self.elapsed + delta) as u64, finished: false, ..self }
        }
    }

    /// The timer set back to the start of its count.
    pub open spec fn restarted(self) -> Timer {
        Timer { elapsed: 0, finished: false, ..self }
    }

    /// Time left until the duration is reached.
    pub open spec fn time_left(self) -> nat {
        if self.elapsed <= self.duration {
            (self.duration - self.elapsed) as nat
        } else {
            0
        }
    }

    /// The timer after a run of frames, ticked once for each in turn.
    pub open spec fn ticked_through(self, deltas: Seq<u64>) -> Timer
        decreases deltas.len(),
    {
        if deltas.len() == 0 {
            self
        } else {
            self.ticked_through(deltas.drop_last()).ticked(deltas.last())
        }
    }

    /// However the time is cut into frames, a `Once` timer that is still
    /// running has counted their sum, capped at its duration, and it is
    /// finished after the last frame exactly when that sum has reached the
    /// duration.
    pub proof fn lemma_once_finishes_on_time(self, deltas: Seq<u64>)
        requires
            self.mode == TimerMode::Once,
            !self.finished,
            self.elapsed <= self.duration,
        ensures
            self.ticked_through(deltas).mode == TimerMode::Once,
            self.ticked_through(deltas).duration == self.duration,
            self.ticked_through(deltas).elapsed == if self.elapsed + total_time(deltas)
                >= self.duration {
                self.duration as int
            } else {
                self.elapsed + total_time(deltas)
            },
            self.ticked_through(deltas).finished ==> self.elapsed + total_time(deltas)
                >= self.duration,
            deltas.len() > 0 && self.elapsed + total_time(deltas) >= self.duration
                ==> self.ticked_through(deltas).finished,
        decreases deltas.len(),
    {
        if deltas.len() > 0 {
            self.lemma_once_finishes_on_time(deltas.drop_last());
        }
    }

    /// Creates a timer that has not run yet.
    pub fn new(duration: u64, mode: TimerMode) -> (timer: Timer)
        ensures
            timer == Timer::fresh(duration, mode),
    {
        Timer { duration, elapsed: 0, mode, finished: false }
    }

    /// Advances the timer by `delta`.
    pub fn tick(&mut self, delta: u64)
        ensures
            *final(self) == old(self).ticked(delta),
    {
        let once = match self.mode {
            TimerMode::Once => true,
            TimerMode::Repeating => false,
        };
        if once && self.finished {
            return;
        }
        let total: u128 = self.elapsed as u128 + delta as u128;
        if total >= self.duration as u128 {
            if once {
                self.elapsed = self.duration;
            } else if self.duration == 0 {
                self.elapsed = 0;
            } else {
                self.elapsed = (total % (self.duration as u128)) as u64;
            }
            self.finished = true;
        } else {
            self.elapsed = total as u64;
            self.finished = false;
        }
    }

    /// Sets the timer back to the start of its count.
    pub fn reset(&mut self)
        ensures
            *final(self) == old(self).restarted(),
    {
        self.elapsed = 0;
        self.finished = false;
    }

    /// Time left until the duration is reached.
    pub fn remaining(&self) -> (left: u64)
        ensures
            left == self.time_left(),
    {
        if self.elapsed <= self.duration {
            self.duration - self.elapsed
        } else {
            0
        }
    }
}

} // verus!
