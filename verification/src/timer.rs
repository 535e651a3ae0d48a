//! Countdown timer over whole milliseconds, with one-shot and repeating
//! modes, and the accumulation laws that cooldowns, animations and the shield
//! expiry rely on.

use vstd::arithmetic::div_mod::{
    lemma_basic_div, lemma_div_by_self, lemma_div_is_ordered, lemma_div_nonincreasing,
    lemma_fundamental_div_mod, lemma_fundamental_div_mod_converse, lemma_mod_pos_bound,
    lemma_small_mod,
};
use vstd::prelude::*;

verus! {

/// Largest duration a timer may be configured with, in milliseconds.
pub const MAX_DURATION_MS: u64 = 1_000_000_000_000;

/// Largest delta a single tick may advance a timer by, in milliseconds.
pub const MAX_TICK_MS: u64 = 1_000_000_000_000;

/// Whether a timer stops once it reaches its duration or wraps and repeats.
#[derive(Debug, Clone, Copy, PartialEq, Eq, Structural)]
pub enum TimerMode {
    Once,
    Repeating,
}

/// A countdown timer: advances by whole milliseconds, reports completion.
///
/// A `Once` timer clamps at its duration and stays finished until reset; a
/// `Repeating` timer wraps its elapsed time by subtracting the duration, so
/// overshoot across frames is never lost.
#[derive(Debug, Clone, Copy, PartialEq, Eq, Structural)]
pub struct Timer {
    pub duration_ms: u64,
    pub elapsed_ms: u64,
    pub mode: TimerMode,
    pub finished: bool,
    pub times_finished_this_tick: u64,
}

impl Timer {
    /// Well-formedness: positive bounded duration, elapsed inside it, and the
    /// `finished` flag latched exactly at the duration for one-shot timers.
    pub open spec fn inv(self) -> bool {
        &&& 0 < self.duration_ms <= MAX_DURATION_MS
        &&& self.elapsed_ms <= self.duration_ms
        &&& (self.mode is Repeating ==> self.elapsed_ms < self.duration_ms)
        &&& (self.mode is Once ==> (self.finished <==> self.elapsed_ms == self.duration_ms))
    }

    /// A freshly constructed timer of the given duration and mode.
    pub open spec fn spec_new(duration_ms: u64, mode: TimerMode) -> Timer {
        Timer {
            duration_ms,
            elapsed_ms: 0,
            mode,
            finished: false,
            times_finished_this_tick: 0,
        }
    }

    /// The state one tick by `delta` milliseconds leads to.
    pub open spec fn spec_tick(self, delta: int) -> Timer {
        let total = self.elapsed_ms as int + delta;
        let d = self.duration_ms as int;
        if self.mode is Once {
            if total >= d {
                Timer {
                    elapsed_ms: self.duration_ms,
                    finished: true,
                    times_finished_this_tick: if self.finished { 0u64 } else { 1u64 },
                    ..self
                }
            } else {
                Timer { elapsed_ms: total as u64, finished: false, times_finished_this_tick: 0u64, ..self }
            }
        } else {
            Timer {
                elapsed_ms: (total % d) as u64,
                finished: total >= d,
                times_finished_this_tick: (total / d) as u64,
                ..self
            }
        }
    }

    /// The state a reset leads to: elapsed cleared, completion flags cleared.
    pub open spec fn spec_reset(self) -> Timer {
        Timer { elapsed_ms: 0, finished: false, times_finished_this_tick: 0, ..self }
    }

    pub fn from_millis(duration_ms: u64, mode: TimerMode) -> (t: Timer)
        requires
            0 < duration_ms <= MAX_DURATION_MS,
        ensures
            t == Timer::spec_new(duration_ms, mode),
            t.inv(),
    {
        Timer { duration_ms, elapsed_ms: 0, mode, finished: false, times_finished_this_tick: 0 }
    }

    /// Advance the timer by `delta_ms` milliseconds.
    pub fn tick(&mut self, delta_ms: u64)
        requires
            old(self).inv(),
            delta_ms <= MAX_TICK_MS,
        ensures
            *final(self) == old(self).spec_tick(delta_ms as int),
            final(self).inv(),
            final(self).finished <==> old(self).elapsed_ms + delta_ms >= old(self).duration_ms,
    {
        proof {
            lemma_mod_pos_bound(
                old(self).elapsed_ms as int + delta_ms as int,
                old(self).duration_ms as int,
            );
        }
        match self.mode {
            TimerMode::Once => {
                if self.finished {
                    self.times_finished_this_tick = 0;
                } else {
                    let total: u64 = self.elapsed_ms + delta_ms;
                    if total >= self.duration_ms {
                        self.elapsed_ms = self.duration_ms;
                        self.finished = true;
                        self.times_finished_this_tick = 1;
                    } else {
                        self.elapsed_ms = total;
                        self.times_finished_this_tick = 0;
                    }
                }
            }
            TimerMode::Repeating => {
                let total: u64 = self.elapsed_ms + delta_ms;
                self.times_finished_this_tick = total / self.duration_ms;
                self.elapsed_ms = total % self.duration_ms;
                self.finished = self.times_finished_this_tick > 0;
                proof {
                    if total >= self.duration_ms {
                        lemma_div_by_self(self.duration_ms as int);
                        lemma_div_is_ordered(
                            self.duration_ms as int,
                            total as int,
                            self.duration_ms as int,
                        );
                    } else {
                        lemma_basic_div(total as int, self.duration_ms as int);
                    }
                }
            }
        }
    }

    /// Whether the duration has been reached (latched for one-shot timers,
    /// transient for repeating ones).
    pub fn finished(&self) -> (r: bool)
        ensures
            r == self.finished,
    {
        self.finished
    }

    /// Whether the duration threshold was crossed on the last tick.
    pub fn just_finished(&self) -> (r: bool)
        ensures
            r == (self.times_finished_this_tick > 0),
    {
        self.times_finished_this_tick > 0
    }

    /// Clear elapsed time and completion state; the configuration stays.
    pub fn reset(&mut self)
        requires
            old(self).inv(),
        ensures
            *final(self) == old(self).spec_reset(),
            final(self).inv(),
    {
        self.elapsed_ms = 0;
        self.finished = false;
        self.times_finished_this_tick = 0;
    }
}

/// Sum of a sequence of tick deltas.
pub open spec fn sum_of(deltas: Seq<int>) -> int
    decreases deltas.len(),
{
    if deltas.len() == 0 {
        0
    } else {
        sum_of(deltas.drop_last()) + deltas.last()
    }
}

/// Every delta in the sequence is nonnegative.
pub open spec fn all_nonneg(deltas: Seq<int>) -> bool {
    forall|i: int| 0 <= i < deltas.len() ==> #[trigger] deltas[i] >= 0
}

/// Elapsed milliseconds of a fresh one-shot timer of duration `d` after
/// ticking it by `deltas` in order (it clamps at `d`).
pub open spec fn once_elapsed(d: int, deltas: Seq<int>) -> int
    decreases deltas.len(),
{
    if deltas.len() == 0 {
        0
    } else {
        let prev = once_elapsed(d, deltas.drop_last());
        if prev + deltas.last() >= d {
            d
        } else {
            prev + deltas.last()
        }
    }
}

/// Whether a fresh one-shot timer of duration `d` has finished after ticking
/// it by `deltas` in order.
pub open spec fn once_finished(d: int, deltas: Seq<int>) -> bool {
    once_elapsed(d, deltas) == d
}

/// Elapsed milliseconds of a repeating timer of duration `d` after ticking it
/// by `deltas` in order, starting from elapsed time `e0`.
pub open spec fn repeating_elapsed(e0: int, d: int, deltas: Seq<int>) -> int
    decreases deltas.len(),
{
    if deltas.len() == 0 {
        e0
    } else {
        (repeating_elapsed(e0, d, deltas.drop_last()) + deltas.last()) % d
    }
}

/// Total completions a repeating timer of duration `d` reports across ticking
/// it by `deltas` in order, starting from elapsed time `e0`.
pub open spec fn repeating_completions(e0: int, d: int, deltas: Seq<int>) -> int
    decreases deltas.len(),
{
    if deltas.len() == 0 {
        0
    } else {
        repeating_completions(e0, d, deltas.drop_last()) + (repeating_elapsed(
            e0,
            d,
            deltas.drop_last(),
        ) + deltas.last()) / d
    }
}

/// Every delta is a frame delta: nonnegative and within one tick's bound.
pub open spec fn frame_deltas_bounded(deltas: Seq<int>) -> bool {
    forall|i: int| 0 <= i < deltas.len() ==> 0 <= #[trigger] deltas[i] <= MAX_TICK_MS
}

/// The timer a sequence of ticks by `deltas`, in order, leads to.
pub open spec fn ticked_by(t: Timer, deltas: Seq<int>) -> Timer
    decreases deltas.len(),
{
    if deltas.len() == 0 {
        t
    } else {
        ticked_by(t, deltas.drop_last()).spec_tick(deltas.last())
    }
}

/// Total completions the timer reports across a sequence of ticks by
/// `deltas`, in order.
pub open spec fn completions_of(t: Timer, deltas: Seq<int>) -> int
    decreases deltas.len(),
{
    if deltas.len() == 0 {
        0
    } else {
        completions_of(t, deltas.drop_last()) + ticked_by(
            t,
            deltas,
        ).times_finished_this_tick
    }
}

/// Dropping the last element keeps every delta nonnegative.
proof fn lemma_all_nonneg_drop_last(deltas: Seq<int>)
    requires
        deltas.len() > 0,
        all_nonneg(deltas),
    ensures
        all_nonneg(deltas.drop_last()),
{
    assert forall|i: int| 0 <= i < deltas.drop_last().len() implies #[trigger] deltas.drop_last()[i]
        >= 0 by {
        assert(deltas[i] >= 0);
    }
}

/// A sum of nonnegative deltas is nonnegative.
proof fn lemma_sum_of_nonneg(deltas: Seq<int>)
    requires
        all_nonneg(deltas),
    ensures
        sum_of(deltas) >= 0,
    decreases deltas.len(),
{
    if deltas.len() > 0 {
        lemma_all_nonneg_drop_last(deltas);
        lemma_sum_of_nonneg(deltas.drop_last());
        assert(deltas[deltas.len() - 1] >= 0);
    }
}

/// One-shot accumulation law: however a span of time is split into
/// nonnegative frame deltas, a fresh one-shot timer of duration `d` ticked by
/// them holds their sum clamped at `d`, and has finished exactly when the sum
/// reached `d`.
pub proof fn lemma_once_accumulation(d: int, deltas: Seq<int>)
    requires
        d > 0,
        all_nonneg(deltas),
    ensures
        once_elapsed(d, deltas) == if sum_of(deltas) >= d {
            d
        } else {
            sum_of(deltas)
        },
        once_finished(d, deltas) <==> sum_of(deltas) >= d,
    decreases deltas.len(),
{
    if deltas.len() > 0 {
        lemma_all_nonneg_drop_last(deltas);
        lemma_once_accumulation(d, deltas.drop_last());
        assert(deltas[deltas.len() - 1] >= 0);
    }
}

/// Dropping the last element keeps every delta a frame delta.
proof fn lemma_frame_deltas_drop_last(deltas: Seq<int>)
    requires
        deltas.len() > 0,
        frame_deltas_bounded(deltas),
    ensures
        frame_deltas_bounded(deltas.drop_last()),
{
    assert forall|i: int| 0 <= i < deltas.drop_last().len() implies 0 <= #[trigger] deltas.drop_last()[i]
        <= MAX_TICK_MS by {
        assert(0 <= deltas[i] <= MAX_TICK_MS);
    }
}

/// One-shot run law: a fresh one-shot timer (as a reset or a new one leaves
/// it), ticked by any sequence of nonnegative deltas, holds their sum
/// clamped at its duration and has finished exactly when the sum reached the
/// duration.
pub proof fn lemma_once_run(t: Timer, deltas: Seq<int>)
    requires
        t.inv(),
        t.mode is Once,
        t.elapsed_ms == 0,
        !t.finished,
        all_nonneg(deltas),
    ensures
        ticked_by(t, deltas).inv(),
        ticked_by(t, deltas).mode is Once,
        ticked_by(t, deltas).duration_ms == t.duration_ms,
        ticked_by(t, deltas).elapsed_ms == once_elapsed(t.duration_ms as int, deltas),
        ticked_by(t, deltas).finished <==> sum_of(deltas) >= t.duration_ms,
    decreases deltas.len(),
{
    lemma_once_accumulation(t.duration_ms as int, deltas);
    if deltas.len() > 0 {
        lemma_all_nonneg_drop_last(deltas);
        lemma_once_run(t, deltas.drop_last());
        lemma_once_accumulation(t.duration_ms as int, deltas.drop_last());
        assert(deltas[deltas.len() - 1] >= 0);
    }
}

/// Repeating accumulation law: a repeating timer of duration `d`, starting
/// from elapsed time `e0` and ticked by any sequence of nonnegative frame
/// deltas, has reported exactly `(e0 + sum) / d` completions and holds
/// `(e0 + sum) % d` elapsed milliseconds.
pub proof fn lemma_repeating_accumulation(e0: int, d: int, deltas: Seq<int>)
    requires
        d > 0,
        0 <= e0 < d,
        all_nonneg(deltas),
    ensures
        repeating_elapsed(e0, d, deltas) == (e0 + sum_of(deltas)) % d,
        repeating_completions(e0, d, deltas) == (e0 + sum_of(deltas)) / d,
    decreases deltas.len(),
{
    if deltas.len() == 0 {
        lemma_mod_pos_bound(e0, d);
        lemma_fundamental_div_mod(e0, d);
        lemma_fundamental_div_mod_converse(e0, d, 0, e0);
    } else {
        let prefix = deltas.drop_last();
        let x = deltas.last();
        assert(deltas[deltas.len() - 1] >= 0);
        lemma_all_nonneg_drop_last(deltas);
        lemma_repeating_accumulation(e0, d, prefix);
        let s = sum_of(prefix);
        let e1 = repeating_elapsed(e0, d, prefix);
        let c1 = repeating_completions(e0, d, prefix);
        let q2 = (e1 + x) / d;
        let r2 = (e1 + x) % d;
        lemma_sum_of_nonneg(prefix);
        lemma_mod_pos_bound(e0 + s, d);
        lemma_mod_pos_bound(e1 + x, d);
        lemma_fundamental_div_mod(e0 + s, d);
        lemma_fundamental_div_mod(e1 + x, d);
        assert(d * (c1 + q2) == d * c1 + d * q2) by (nonlinear_arith);
        assert(e0 + s + x == d * (c1 + q2) + r2);
        lemma_fundamental_div_mod_converse(e0 + s + x, d, c1 + q2, r2);
    }
}

/// Repeating run law: a well-formed repeating timer, ticked by any sequence
/// of frame deltas, holds `(elapsed + sum) % duration` and has reported
/// `(elapsed + sum) / duration` completions in total: splitting a span of
/// time into frames never loses or invents a completion.
pub proof fn lemma_repeating_run(t: Timer, deltas: Seq<int>)
    requires
        t.inv(),
        t.mode is Repeating,
        frame_deltas_bounded(deltas),
    ensures
        ticked_by(t, deltas).inv(),
        ticked_by(t, deltas).mode is Repeating,
        ticked_by(t, deltas).duration_ms == t.duration_ms,
        ticked_by(t, deltas).elapsed_ms == (t.elapsed_ms + sum_of(deltas)) % (
        t.duration_ms as int),
        completions_of(t, deltas) == (t.elapsed_ms + sum_of(deltas)) / (t.duration_ms as int),
    decreases deltas.len(),
{
    let d = t.duration_ms as int;
    let e0 = t.elapsed_ms as int;
    if deltas.len() == 0 {
        lemma_small_mod(e0 as nat, d as nat);
        lemma_basic_div(e0, d);
    } else {
        let prefix = deltas.drop_last();
        let x = deltas.last();
        assert(0 <= deltas[deltas.len() - 1] <= MAX_TICK_MS);
        lemma_frame_deltas_drop_last(deltas);
        lemma_repeating_run(t, prefix);
        let p = ticked_by(t, prefix);
        let s = sum_of(prefix);
        let c1 = completions_of(t, prefix);
        let q2 = (p.elapsed_ms + x) / d;
        let r2 = (p.elapsed_ms + x) % d;
        lemma_mod_pos_bound(p.elapsed_ms + x, d);
        lemma_div_nonincreasing(p.elapsed_ms + x, d);
        lemma_fundamental_div_mod(p.elapsed_ms + x, d);
        lemma_fundamental_div_mod(e0 + s, d);
        assert(d * (c1 + q2) == d * c1 + d * q2) by (nonlinear_arith);
        assert(e0 + s + x == d * (c1 + q2) + r2);
        lemma_fundamental_div_mod_converse(e0 + s + x, d, c1 + q2, r2);
    }
}

} // verus!
