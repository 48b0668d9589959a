use vstd::prelude::*;

verus! {

/// Nanoseconds in a millisecond.
pub const NANOS_PER_MILLI: u64 = 1_000_000;

/// Whether a timer runs once or starts over each time it runs out.
#[derive(Clone, Copy, PartialEq, Eq, Debug, Structural)]
pub enum TimerMode {
    /// Runs out once and stays run out until it is reset.
    Once,
    /// Starts over each time it runs out, carrying over the time beyond.
    Repeating,
}

/// A game timer counting nanoseconds of game time, such as a gun's cooldown,
/// the spawn interval or an animation's frame time. It behaves as Bevy's
/// `Timer` does (which never pauses in this game), with time counted in
/// `u64` nanoseconds, which stop growing at `u64::MAX` (some 584 years).
#[derive(Clone, Copy, PartialEq, Eq, Debug, Structural)]
pub struct Timer {
    /// The time the timer runs for.
    pub duration: u64,
    /// The time it has run since it was last reset or started over.
    pub elapsed: u64,
    /// Once or repeating.
    pub mode: TimerMode,
    /// Whether it has run out.
    pub finished: bool,
    /// How many times it ran out during the last tick.
    pub times_finished_this_tick: u32,
}

/// A timer that has not run yet.
pub open spec fn spec_new_timer(duration: u64, mode: TimerMode) -> Timer {
    Timer { duration, elapsed: 0, mode, finished: false, times_finished_this_tick: 0 }
}

/// `a + b`, or `u64::MAX` when that does not fit.
pub open spec fn spec_saturating_add(a: u64, b: u64) -> u64 {
    if a + b > u64::MAX {
        u64::MAX
    } else {
        (a + b) as u64
    }
}

/// The timer after `delta` more nanoseconds of game time. A once timer that
/// has run out stays so. Otherwise the time is added; on reaching the
/// duration a once timer stops at its duration, a repeating one keeps the
/// time beyond the last full run and counts the runs (a repeating timer of
/// duration zero counts `u32::MAX` runs and keeps no time).
pub open spec fn spec_tick(t: Timer, delta: u64) -> Timer {
    if t.mode == TimerMode::Once && t.finished {
        Timer { times_finished_this_tick: 0, ..t }
    } else {
        let e = spec_saturating_add(t.elapsed, delta);
        if e >= t.duration {
            match t.mode {
                TimerMode::Repeating => if t.duration == 0 {
                    Timer { elapsed: 0, finished: true, times_finished_this_tick: u32::MAX, ..t }
                } else {
                    Timer {
                        elapsed: (e % t.duration) as u64,
                        finished: true,
                        times_finished_this_tick: (e / t.duration) as u32,
                        ..t
                    }
                },
                TimerMode::Once => Timer {
                    elapsed: t.duration,
                    finished: true,
                    times_finished_this_tick: 1,
                    ..t
                },
            }
        } else {
            Timer { elapsed: e, finished: false, times_finished_this_tick: 0, ..t }
        }
    }
}

/// The timer started over from zero.
pub open spec fn spec_reset(t: Timer) -> Timer {
    Timer { elapsed: 0, finished: false, times_finished_this_tick: 0, ..t }
}

/// The timer after ticking through the frame times `deltas` in order.
pub open spec fn spec_tick_all(t: Timer, deltas: Seq<u64>) -> Timer
    decreases deltas.len(),
{
    if deltas.len() == 0 {
        t
    } else {
        spec_tick(spec_tick_all(t, deltas.drop_last()), deltas.last())
    }
}

/// The total of the frame times `deltas`.
pub open spec fn spec_total(deltas: Seq<u64>) -> nat
    decreases deltas.len(),
{
    if deltas.len() == 0 {
        0
    } else {
        spec_total(deltas.drop_last()) + deltas.last() as nat
    }
}

impl Timer {
    /// A timer's time never passes its duration, and one that ran out stopped
    /// at its duration (once) or holds the time beyond its last run (repeating).
    pub open spec fn wf(self) -> bool {
        &&& self.elapsed <= self.duration
        &&& (self.mode == TimerMode::Once && self.finished) ==> self.elapsed == self.duration
        &&& (self.mode == TimerMode::Repeating && self.duration > 0) ==> self.elapsed
            < self.duration
    }

    /// A timer of `duration` nanoseconds that has not run yet.
    pub fn new(duration: u64, mode: TimerMode) -> (t: Self)
        ensures
            t == spec_new_timer(duration, mode),
    {
        Timer { duration, elapsed: 0, mode, finished: false, times_finished_this_tick: 0 }
    }

    /// Lets `delta` nanoseconds of game time pass (see `spec_tick`).
    pub fn tick(&mut self, delta: u64)
        ensures
            *final(self) == spec_tick(*old(self), delta),
            old(self).wf() ==> final(self).wf(),
    {
        if self.mode == TimerMode::Once && self.finished {
            self.times_finished_this_tick = 0;
            return;
        }
        let e: u64 = if delta > u64::MAX - self.elapsed {
            u64::MAX
        } else {
            self.elapsed + delta
        };
        if e >= self.duration {
            self.finished = true;
            match self.mode {
                TimerMode::Repeating => {
                    if self.duration == 0 {
                        self.times_finished_this_tick = u32::MAX;
                        self.elapsed = 0;
                    } else {
                        self.times_finished_this_tick = (e / self.duration) as u32;
                        self.elapsed = e % self.duration;
                    }
                },
                TimerMode::Once => {
                    self.times_finished_this_tick = 1;
                    self.elapsed = self.duration;
                },
            }
        } else {
            self.finished = false;
            self.times_finished_this_tick = 0;
            self.elapsed = e;
        }
    }

    /// Whether the timer has run out.
    pub fn is_finished(&self) -> (finished: bool)
        ensures
            finished == self.finished,
    {
        self.finished
    }

    /// Whether the timer ran out during the last tick.
    pub fn just_finished(&self) -> (just: bool)
        ensures
            just == (self.times_finished_this_tick > 0),
    {
        self.times_finished_this_tick > 0
    }

    /// Starts the timer over from zero.
    pub fn reset(&mut self)
        ensures
            *final(self) == spec_reset(*old(self)),
            final(self).wf(),
    {
        self.elapsed = 0;
        self.finished = false;
        self.times_finished_this_tick = 0;
    }
}

/// A once timer of positive duration started from zero runs out exactly when
/// the game time ticked through it reaches its duration, and until then holds
/// that time.
pub proof fn lemma_once_timer_measures_time(duration: u64, deltas: Seq<u64>)
    requires
        duration > 0,
        spec_total(deltas) <= u64::MAX,
    ensures
        spec_tick_all(spec_new_timer(duration, TimerMode::Once), deltas).finished
            <==> spec_total(deltas) >= duration,
        spec_tick_all(spec_new_timer(duration, TimerMode::Once), deltas).elapsed == if spec_total(
            deltas,
        ) >= duration {
            duration as int
        } else {
            spec_total(deltas) as int
        },
        spec_tick_all(spec_new_timer(duration, TimerMode::Once), deltas).mode == TimerMode::Once,
        spec_tick_all(spec_new_timer(duration, TimerMode::Once), deltas).duration == duration,
    decreases deltas.len(),
{
    if deltas.len() > 0 {
        lemma_once_timer_measures_time(duration, deltas.drop_last());
    }
}

/// A repeating timer loses no time: after a tick, its runs counted in the
/// tick times its duration, plus the time it keeps, make up the time it had
/// plus the time that passed, and the time it keeps is under its duration.
pub proof fn lemma_repeating_timer_keeps_time(t: Timer, delta: u64)
    requires
        t.mode == TimerMode::Repeating,
        t.duration > 0,
        t.wf(),
        t.elapsed + delta <= u64::MAX,
        (t.elapsed + delta) / (t.duration as int) <= u32::MAX,
    ensures
        spec_tick(t, delta).times_finished_this_tick * t.duration + spec_tick(t, delta).elapsed
            == t.elapsed + delta,
        spec_tick(t, delta).elapsed < t.duration,
        spec_tick(t, delta).wf(),
{
    let e = (t.elapsed + delta) as int;
    let d = t.duration as int;
    assert((e / d) * d + e % d == e) by (nonlinear_arith)
        requires
            d > 0,
    ;
    assert(0 <= e % d < d) by (nonlinear_arith)
        requires
            d > 0,
    ;
    assert(e / d >= 0) by (nonlinear_arith)
        requires
            d > 0,
            e >= 0,
    ;
    if e >= d {
        assert(spec_tick(t, delta).times_finished_this_tick == e / d);
    } else {
        assert(e / d == 0) by (nonlinear_arith)
            requires
                0 <= e < d,
        ;
    }
}

/// A repeating timer of positive duration started from zero runs out once per
/// full duration of game time: after ticking through frames of total time
/// `T`, it holds `T % duration`, and the last frame counted exactly the runs
/// completed in it, `T / duration` less those completed before.
pub proof fn lemma_repeating_timer_runs_out_per_duration(duration: u64, deltas: Seq<u64>)
    requires
        duration > 0,
        spec_total(deltas) <= u64::MAX,
        (spec_total(deltas) as int) / (duration as int) <= u32::MAX,
    ensures
        spec_tick_all(spec_new_timer(duration, TimerMode::Repeating), deltas).elapsed
            == (spec_total(deltas) as int) % (duration as int),
        spec_tick_all(spec_new_timer(duration, TimerMode::Repeating), deltas).mode
            == TimerMode::Repeating,
        spec_tick_all(spec_new_timer(duration, TimerMode::Repeating), deltas).duration == duration,
        deltas.len() > 0 ==> spec_tick_all(
            spec_new_timer(duration, TimerMode::Repeating),
            deltas,
        ).times_finished_this_tick == (spec_total(deltas) as int) / (duration as int) - (spec_total(
            deltas.drop_last(),
        ) as int) / (duration as int),
    decreases deltas.len(),
{
    let d = duration as int;
    if deltas.len() == 0 {
        assert(0int % d == 0) by (nonlinear_arith)
            requires
                d > 0,
        ;
    } else {
        let prev = deltas.drop_last();
        let total_prev = spec_total(prev) as int;
        let delta = deltas.last() as int;
        let total = total_prev + delta;
        assert(total_prev / d <= total / d) by (nonlinear_arith)
            requires
                d > 0,
                0 <= total_prev <= total,
        ;
        lemma_repeating_timer_runs_out_per_duration(duration, prev);
        let t = spec_tick_all(spec_new_timer(duration, TimerMode::Repeating), prev);
        let q = total_prev / d;
        let r = total_prev % d;
        vstd::arithmetic::div_mod::lemma_fundamental_div_mod(total_prev, d);
        assert(0 <= r < d) by (nonlinear_arith)
            requires
                d > 0,
                r == total_prev % d,
        ;
        let e = r + delta;
        let q2 = e / d;
        let r2 = e % d;
        vstd::arithmetic::div_mod::lemma_fundamental_div_mod(e, d);
        assert(0 <= r2 < d && q2 >= 0) by (nonlinear_arith)
            requires
                d > 0,
                r2 == e % d,
                q2 == e / d,
                e >= 0,
        ;
        assert(total == (q + q2) * d + r2) by (nonlinear_arith)
            requires
                total_prev == d * q + r,
                e == d * q2 + r2,
                total == total_prev + delta,
                e == r + delta,
        ;
        vstd::arithmetic::div_mod::lemma_fundamental_div_mod_converse(total, d, q + q2, r2);
        assert(t.elapsed == r);
        assert(e <= total);
        if e >= d {
            assert(spec_tick(t, deltas.last()).elapsed == r2);
            assert(spec_tick(t, deltas.last()).times_finished_this_tick == q2);
        } else {
            assert(q2 == 0 && r2 == e) by {
                vstd::arithmetic::div_mod::lemma_fundamental_div_mod_converse(e, d, 0, e);
            }
        }
    }
}

} // verus!
