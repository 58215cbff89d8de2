//! Countdowns measured in microseconds.

use vstd::prelude::*;
use vstd::arithmetic::div_mod::{
    lemma_div_pos_is_pos, lemma_fundamental_div_mod, lemma_fundamental_div_mod_converse,
    lemma_mod_pos_bound,
};

verus! {

/// What a timer does once its duration has passed.
#[derive(Clone, Copy, Debug, PartialEq, Eq, Structural)]
pub enum TimerMode {
    /// It finishes once and then stays finished.
    Once,
    /// It starts over, carrying the excess time into the next round.
    Repeating,
}

/// A countdown that is advanced by the time each tick took.
#[derive(Clone, Copy, Debug, PartialEq, Eq, Structural)]
pub struct Timer {
    /// Microseconds from start to finish.
    pub duration: u64,
    /// Microseconds counted so far in the current round.
    pub elapsed: u64,
    /// Whether the timer runs once or repeats.
    pub mode: TimerMode,
    /// Whether the duration was reached at the latest tick (repeating) or at
    /// any tick so far (once).
    pub finished: bool,
    /// How many times the duration was reached during the latest tick.
    pub times_finished_this_tick: u64,
}

/// `n` if a `u64` can hold it, else the largest `u64`.
pub open spec fn capped(n: int) -> int {
    if n > u64::MAX as int {
        u64::MAX as int
    } else {
        n
    }
}

/// The sum of `deltas`.
pub open spec fn total(deltas: Seq<u64>) -> int
    decreases deltas.len(),
{
    if deltas.len() == 0 {
        0
    } else {
        total(deltas.drop_last()) + deltas.last()
    }
}

impl Timer {
    /// The timer after one tick for each of `deltas`, in their order.
    pub open spec fn ticked_through(self, deltas: Seq<u64>) -> Timer
        decreases deltas.len(),
    {
        if deltas.len() == 0 {
            self
        } else {
            self.ticked_through(deltas.drop_last()).ticked(deltas.last() as int)
        }
    }

    /// How many times the timer finishes in all during one tick for each of
    /// `deltas`.
    pub open spec fn rounds_through(self, deltas: Seq<u64>) -> int
        decreases deltas.len(),
    {
        if deltas.len() == 0 {
            0
        } else {
            self.rounds_through(deltas.drop_last()) + self.ticked_through(
                deltas,
            ).times_finished_this_tick
        }
    }

    /// The timer after a tick of `delta` microseconds.
    ///
    /// A finished one-shot timer only forgets that it has just finished.
    /// Otherwise the time is added; a one-shot timer that reaches its duration
    /// stops there, and a repeating timer counts how many whole durations fit
    /// in the sum and keeps the remainder. A repeating timer of duration zero
    /// finishes as often as can be counted.
    pub open spec fn ticked(self, delta: int) -> Timer {
        let sum = self.elapsed as int + delta;
        match self.mode {
            TimerMode::Once => if self.finished {
                Timer { times_finished_this_tick: 0, ..self }
            } else if sum >= self.duration as int {
                Timer {
                    elapsed: self.duration,
                    finished: true,
                    times_finished_this_tick: 1,
                    ..self
                }
            } else {
                Timer { elapsed: sum as u64, finished: false, times_finished_this_tick: 0, ..self }
            },
            TimerMode::Repeating => if sum < self.duration as int {
                Timer { elapsed: sum as u64, finished: false, times_finished_this_tick: 0, ..self }
            } else if self.duration == 0 {
                Timer { elapsed: 0, finished: true, times_finished_this_tick: u64::MAX, ..self }
            } else {
                Timer {
                    elapsed: (sum % (self.duration as int)) as u64,
                    finished: true,
                    times_finished_this_tick: capped(sum / (self.duration as int)) as u64,
                    ..self
                }
            },
        }
    }

    /// A timer at the start of its first round.
    pub fn new(duration: u64, mode: TimerMode) -> (timer: Timer)
        ensures
            timer == (Timer {
                duration,
                elapsed: 0,
                mode,
                finished: false,
                times_finished_this_tick: 0,
            }),
    {
        Timer { duration, elapsed: 0, mode, finished: false, times_finished_this_tick: 0 }
    }

    /// Advances the timer by `delta` microseconds.
    pub fn tick(&mut self, delta: u64)
        ensures
            *final(self) == old(self).ticked(delta as int),
    {
        let sum: u128 = self.elapsed as u128 + delta as u128;
        match self.mode {
            TimerMode::Once => {
                if self.finished {
                    self.times_finished_this_tick = 0;
                } else if sum >= self.duration as u128 {
                    self.elapsed = self.duration;
                    self.finished = true;
                    self.times_finished_this_tick = 1;
                } else {
                    self.elapsed = sum as u64;
                    self.times_finished_this_tick = 0;
                }
            },
            TimerMode::Repeating => {
                if sum < self.duration as u128 {
                    self.elapsed = sum as u64;
                    self.finished = false;
                    self.times_finished_this_tick = 0;
                } else if self.duration == 0 {
                    self.elapsed = 0;
                    self.finished = true;
                    self.times_finished_this_tick = u64::MAX;
                } else {
                    let rounds: u128 = sum / (self.duration as u128);
                    let rest: u128 = sum % (self.duration as u128);
                    self.elapsed = rest as u64;
                    self.finished = true;
                    self.times_finished_this_tick = if rounds > u64::MAX as u128 {
                        u64::MAX
                    } else {
                        rounds as u64
                    };
                }
            },
        }
    }

    /// Whether the duration has been reached.
    pub fn finished(&self) -> (b: bool)
        ensures
            b == self.finished,
    {
        self.finished
    }

    /// Whether the duration was reached during the latest tick.
    pub fn just_finished(&self) -> (b: bool)
        ensures
            b == (self.times_finished_this_tick > 0),
    {
        self.times_finished_this_tick > 0
    }

    /// How many times the duration was reached during the latest tick.
    pub fn times_finished_this_tick(&self) -> (n: u64)
        ensures
            n == self.times_finished_this_tick,
    {
        self.times_finished_this_tick
    }
}

/// The sum of `deltas` is not negative.
pub proof fn lemma_total_is_not_negative(deltas: Seq<u64>)
    ensures
        0 <= total(deltas),
    decreases deltas.len(),
{
    if deltas.len() > 0 {
        lemma_total_is_not_negative(deltas.drop_last());
    }
}

/// A tick of a repeating timer with time left in its round: the rounds
/// that the tick completes and the time left over are quotient and
/// remainder of the time counted by the duration.
pub proof fn lemma_repeating_tick(timer: Timer, delta: u64)
    requires
        timer.mode == TimerMode::Repeating,
        0 < timer.duration,
        timer.elapsed < timer.duration,
    ensures
        timer.ticked(delta as int).mode == TimerMode::Repeating,
        timer.ticked(delta as int).duration == timer.duration,
        timer.ticked(delta as int).elapsed == (timer.elapsed + delta) % (timer.duration as int),
        timer.ticked(delta as int).times_finished_this_tick == (timer.elapsed + delta) / (
        timer.duration as int),
        timer.ticked(delta as int).elapsed < timer.duration,
{
    let sum = timer.elapsed + delta;
    let d = timer.duration as int;
    lemma_fundamental_div_mod(sum, d);
    lemma_mod_pos_bound(sum, d);
    lemma_div_pos_is_pos(sum, d);
    if sum < d {
        lemma_fundamental_div_mod_converse(sum, d, 0, sum);
    } else {
        // the number of rounds can be held: the sum is below `d + u64::MAX`, and `d` is
        // at least one
        assert(sum / d <= u64::MAX) by (nonlinear_arith)
            requires
                sum == d * (sum / d) + sum % d,
                0 <= sum % d,
                1 <= d,
                sum <= d - 1 + u64::MAX,
                0 <= sum / d,
        ;
    }
}

/// A repeating timer counts whole rounds. Over any ticks, a timer that
/// started with time left in its round finishes as many times as its
/// duration fits into the time counted, and is left with the remainder.
pub proof fn lemma_repeating_timer_counts_rounds(timer: Timer, deltas: Seq<u64>)
    requires
        timer.mode == TimerMode::Repeating,
        0 < timer.duration,
        timer.elapsed < timer.duration,
    ensures
        timer.ticked_through(deltas).mode == TimerMode::Repeating,
        timer.ticked_through(deltas).duration == timer.duration,
        timer.ticked_through(deltas).elapsed == (timer.elapsed + total(deltas)) % (
        timer.duration as int),
        timer.rounds_through(deltas) == (timer.elapsed + total(deltas)) / (timer.duration as int),
    decreases deltas.len(),
{
    let d = timer.duration as int;
    if deltas.len() == 0 {
        lemma_fundamental_div_mod_converse(timer.elapsed as int, d, 0, timer.elapsed as int);
    } else {
        let earlier = deltas.drop_last();
        let delta = deltas.last();
        lemma_repeating_timer_counts_rounds(timer, earlier);
        lemma_total_is_not_negative(earlier);
        let before = timer.ticked_through(earlier);
        let counted = timer.elapsed + total(earlier);
        lemma_mod_pos_bound(counted, d);
        lemma_repeating_tick(before, delta);
        let sum = before.elapsed + delta;
        lemma_fundamental_div_mod(counted, d);
        lemma_fundamental_div_mod(sum, d);
        lemma_mod_pos_bound(sum, d);
        let q = counted / d + sum / d;
        assert(counted + delta == q * d + sum % d) by (nonlinear_arith)
            requires
                counted == d * (counted / d) + counted % d,
                sum == d * (sum / d) + sum % d,
                sum == counted % d + delta,
                q == counted / d + sum / d,
        ;
        lemma_fundamental_div_mod_converse(counted + delta, d, q, sum % d);
    }
}

/// A one-shot timer finishes once, and not early. Over any ticks, a timer
/// that had not finished is finished exactly if the time counted has reached
/// its duration; until then it holds the time counted, and in all it
/// reports having just finished once if it finished and never if not.
pub proof fn lemma_one_shot_timer_waits(timer: Timer, deltas: Seq<u64>)
    requires
        timer.mode == TimerMode::Once,
        !timer.finished,
    ensures
        timer.ticked_through(deltas).mode == TimerMode::Once,
        timer.ticked_through(deltas).duration == timer.duration,
        timer.ticked_through(deltas).finished <==> deltas.len() > 0 && timer.elapsed + total(
            deltas,
        ) >= timer.duration,
        !timer.ticked_through(deltas).finished ==> timer.ticked_through(deltas).elapsed
            == timer.elapsed + total(deltas),
        timer.rounds_through(deltas) == (if timer.ticked_through(deltas).finished {
            1int
        } else {
            0int
        }),
    decreases deltas.len(),
{
    if deltas.len() > 0 {
        let earlier = deltas.drop_last();
        lemma_one_shot_timer_waits(timer, earlier);
        lemma_total_is_not_negative(earlier);
    }
}

} // verus!
