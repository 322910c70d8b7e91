//! Countdown timers measured in whole milliseconds.
//!
//! A timer accumulates elapsed time toward a fixed duration. A one-shot
//! timer stops at its duration; a repeating timer wraps around and runs
//! again. Advancing a timer reports whether it completed during that
//! advance, which is the event the frame systems act on.

use vstd::arithmetic::div_mod::lemma_fundamental_div_mod_converse;
use vstd::prelude::*;

verus! {

/// Whether a timer stays completed once it reaches its duration, or resets
/// and counts down again.
#[derive(Clone, Copy, Debug, PartialEq, Eq, Structural)]
#[verifier::ext_equal]
pub enum TimerMode {
    Once,
    Repeating,
}

/// A countdown: `elapsed_ms` accumulated toward `duration_ms`.
#[derive(Clone, Copy, Debug, PartialEq, Eq, Structural)]
#[verifier::ext_equal]
pub struct Timer {
    pub mode: TimerMode,
    pub duration_ms: u64,
    pub elapsed_ms: u64,
}

impl Timer {
    /// A timer is well formed when its duration is positive and its
    /// accumulated time never runs past the duration; a repeating timer has
    /// already wrapped, so it rests strictly below the duration.
    pub open spec fn wf(self) -> bool {
        &&& self.duration_ms > 0
        &&& self.elapsed_ms <= self.duration_ms
        &&& (self.mode == TimerMode::Repeating ==> self.elapsed_ms < self.duration_ms)
    }

    /// Does advancing by `delta_ms` complete the countdown during that
    /// advance? A one-shot timer completes only on the advance that first
    /// reaches the duration; a repeating timer completes on every advance
    /// that reaches it, since it wraps and runs again.
    pub open spec fn finishes_on(self, delta_ms: u64) -> bool {
        match self.mode {
            TimerMode::Once => self.elapsed_ms < self.duration_ms
                && self.elapsed_ms + delta_ms >= self.duration_ms,
            TimerMode::Repeating => self.elapsed_ms + delta_ms >= self.duration_ms,
        }
    }

    /// The timer after advancing by `delta_ms`: a one-shot timer saturates
    /// at its duration, a repeating timer keeps the remainder.
    pub open spec fn after_tick(self, delta_ms: u64) -> Timer
        recommends
            self.duration_ms > 0,
    {
        let total = self.elapsed_ms + delta_ms;
        match self.mode {
            TimerMode::Once => Timer {
                mode: self.mode,
                duration_ms: self.duration_ms,
                elapsed_ms: if total >= self.duration_ms {
                    self.duration_ms
                } else {
                    total as u64
                },
            },
            TimerMode::Repeating => Timer {
                mode: self.mode,
                duration_ms: self.duration_ms,
                elapsed_ms: (total % (self.duration_ms as int)) as u64,
            },
        }
    }

    /// A fresh timer with nothing elapsed yet.
    pub fn from_millis(duration_ms: u64, mode: TimerMode) -> (t: Timer)
        requires
            duration_ms > 0,
        ensures
            t == (Timer { mode, duration_ms, elapsed_ms: 0 }),
            t.wf(),
    {
        Timer { mode, duration_ms, elapsed_ms: 0 }
    }

    /// Advance the countdown by `delta_ms` and report whether it completed
    /// during this advance.
    pub fn tick(&mut self, delta_ms: u64) -> (just_finished: bool)
        requires
            old(self).wf(),
            old(self).elapsed_ms + delta_ms <= u64::MAX,
        ensures
            *final(self) == old(self).after_tick(delta_ms),
            final(self).wf(),
            just_finished == old(self).finishes_on(delta_ms),
    {
        let total: u64 = self.elapsed_ms + delta_ms;
        match self.mode {
            TimerMode::Once => {
                let was_running: bool = self.elapsed_ms < self.duration_ms;
                if total >= self.duration_ms {
                    self.elapsed_ms = self.duration_ms;
                    was_running
                } else {
                    self.elapsed_ms = total;
                    false
                }
            },
            TimerMode::Repeating => {
                if total >= self.duration_ms {
                    proof {
                        lemma_mod_in_range(total as int, self.duration_ms as int);
                    }
                    self.elapsed_ms = total % self.duration_ms;
                    true
                } else {
                    proof {
                        vstd::arithmetic::div_mod::lemma_small_mod(
                            total as nat,
                            self.duration_ms as nat,
                        );
                    }
                    self.elapsed_ms = total;
                    false
                }
            },
        }
    }

    /// The timer after a whole sequence of advances, first one first.
    pub open spec fn run(self, deltas: Seq<u64>) -> Timer
        decreases deltas.len(),
    {
        if deltas.len() == 0 {
            self
        } else {
            self.after_tick(deltas[0]).run(deltas.drop_first())
        }
    }

    /// How many of a sequence of advances complete the countdown.
    pub open spec fn finish_count(self, deltas: Seq<u64>) -> int
        decreases deltas.len(),
    {
        if deltas.len() == 0 {
            0
        } else {
            (if self.finishes_on(deltas[0]) {
                1int
            } else {
                0int
            }) + self.after_tick(deltas[0]).finish_count(deltas.drop_first())
        }
    }
}

/// The sum of a sequence of frame durations.
pub open spec fn sum_of(deltas: Seq<u64>) -> int
    decreases deltas.len(),
{
    if deltas.len() == 0 {
        0
    } else {
        deltas[0] + sum_of(deltas.drop_first())
    }
}

proof fn lemma_mod_in_range(x: int, m: int)
    requires
        0 <= x,
        0 < m,
    ensures
        0 <= x % m < m,
{
    vstd::arithmetic::div_mod::lemma_mod_bound(x, m);
}

/// Advancing a well-formed timer leaves it well formed, with the same mode
/// and duration.
pub proof fn lemma_after_tick_wf(t: Timer, delta_ms: u64)
    requires
        t.wf(),
    ensures
        t.after_tick(delta_ms).wf(),
        t.after_tick(delta_ms).mode == t.mode,
        t.after_tick(delta_ms).duration_ms == t.duration_ms,
        t.mode == TimerMode::Repeating ==> t.after_tick(delta_ms).elapsed_ms < t.duration_ms,
{
    if t.mode == TimerMode::Repeating {
        lemma_mod_in_range(t.elapsed_ms + delta_ms, t.duration_ms as int);
    }
}

/// Running a repeating timer keeps an exact account of time: every
/// completion stands for one full duration, and whatever is left of the
/// accumulated time remains on the timer. A completion is counted at most
/// once per advance, which is exact as long as no single advance spans more
/// than one full duration.
pub proof fn lemma_repeating_progress(t: Timer, deltas: Seq<u64>)
    requires
        t.wf(),
        t.mode == TimerMode::Repeating,
        forall|i: int| 0 <= i < deltas.len() ==> #[trigger] deltas[i] <= t.duration_ms,
    ensures
        t.run(deltas).wf(),
        t.run(deltas).mode == TimerMode::Repeating,
        t.run(deltas).duration_ms == t.duration_ms,
        t.finish_count(deltas) * t.duration_ms + t.run(deltas).elapsed_ms == t.elapsed_ms
            + sum_of(deltas),
        0 <= t.finish_count(deltas) <= deltas.len(),
    decreases deltas.len(),
{
    if deltas.len() > 0 {
        let d = deltas[0];
        let total = t.elapsed_ms + d;
        let t1 = t.after_tick(d);
        assert(total < 2 * t.duration_ms);
        if total >= t.duration_ms {
            lemma_fundamental_div_mod_converse(
                total,
                t.duration_ms as int,
                1,
                total - t.duration_ms,
            );
            assert(t1.elapsed_ms == total - t.duration_ms);
        } else {
            vstd::arithmetic::div_mod::lemma_small_mod(total as nat, t.duration_ms as nat);
            assert(t1.elapsed_ms == total);
        }
        assert(forall|i: int|
            0 <= i < deltas.drop_first().len() ==> #[trigger] deltas.drop_first()[i]
                <= t1.duration_ms);
        lemma_repeating_progress(t1, deltas.drop_first());
        let b: int = if t.finishes_on(d) {
            1
        } else {
            0
        };
        let c1 = t1.finish_count(deltas.drop_first());
        assert((b + c1) * t.duration_ms == b * t.duration_ms + c1 * t.duration_ms)
            by (nonlinear_arith);
    }
}

/// A repeating timer that starts freshly reset completes exactly
/// `floor(total time / duration)` times over any sequence of advances, as
/// long as no single advance spans more than one full duration.
pub proof fn lemma_repeating_rate(t: Timer, deltas: Seq<u64>)
    requires
        t.wf(),
        t.mode == TimerMode::Repeating,
        t.elapsed_ms == 0,
        forall|i: int| 0 <= i < deltas.len() ==> #[trigger] deltas[i] <= t.duration_ms,
    ensures
        t.finish_count(deltas) == sum_of(deltas) / (t.duration_ms as int),
{
    lemma_repeating_progress(t, deltas);
    lemma_fundamental_div_mod_converse(
        sum_of(deltas),
        t.duration_ms as int,
        t.finish_count(deltas),
        t.run(deltas).elapsed_ms as int,
    );
}

/// A one-shot timer completes exactly when the accumulated time first
/// reaches its duration, and completes at most once: over any sequence of
/// advances it finishes exactly once if the total time crosses the
/// remaining countdown, and never again after that.
pub proof fn lemma_once_expiry(t: Timer, deltas: Seq<u64>)
    requires
        t.wf(),
        t.mode == TimerMode::Once,
    ensures
        t.run(deltas).mode == TimerMode::Once,
        t.run(deltas).duration_ms == t.duration_ms,
        t.run(deltas).elapsed_ms == if t.elapsed_ms + sum_of(deltas) >= t.duration_ms {
            t.duration_ms as int
        } else {
            t.elapsed_ms + sum_of(deltas)
        },
        t.finish_count(deltas) == if t.elapsed_ms < t.duration_ms && t.elapsed_ms + sum_of(deltas)
            >= t.duration_ms {
            1int
        } else {
            0int
        },
    decreases deltas.len(),
{
    if deltas.len() > 0 {
        lemma_once_expiry(t.after_tick(deltas[0]), deltas.drop_first());
        assert(sum_of(deltas.drop_first()) >= 0) by {
            lemma_sum_of_nonneg(deltas.drop_first());
        }
    }
}

/// The sum of a sequence of durations is never negative.
pub proof fn lemma_sum_of_nonneg(deltas: Seq<u64>)
    ensures
        sum_of(deltas) >= 0,
    decreases deltas.len(),
{
    if deltas.len() > 0 {
        lemma_sum_of_nonneg(deltas.drop_first());
    }
}

} // verus!
