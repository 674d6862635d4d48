//! Timers that pace the nitro exhaust: the repeating spawn timer and the
//! one-shot lifetime of each particle. Both tick through bevy's `Timer`.

use bevy::time::{Timer, TimerMode};
use std::time::Duration;
use vstd::prelude::*;

verus! {

/// How a timer behaves once its duration is reached.
#[derive(Clone, Copy, Debug, PartialEq, Eq, Structural)]
pub enum TimerKind {
    /// Stops at its duration and stays finished.
    Once,
    /// Wraps around and finishes again every duration.
    Repeating,
}

/// Elapsed nanoseconds and finished flag of a timer of the given kind and
/// duration, started at `elapsed` nanoseconds and advanced by `delta`.
pub open spec fn timer_tick_spec(kind: TimerKind, duration: u64, elapsed: u64, delta: u64) -> (
    u64,
    bool,
) {
    let total: int = elapsed + delta;
    if total >= duration {
        match kind {
            TimerKind::Once => (duration, true),
            TimerKind::Repeating => (
                if duration == 0 {
                    0u64
                } else {
                    (total % (duration as int)) as u64
                },
                true,
            ),
        }
    } else {
        (total as u64, false)
    }
}

/// Advances a running bevy `Timer` (`Timer::tick`) whose duration and elapsed
/// time are given in nanoseconds, and reports the elapsed time afterwards and
/// whether the timer is finished. As bevy's source shows: the timer finishes
/// when the elapsed time reaches the duration; a one-shot timer then clamps
/// to its duration, a repeating one keeps the remainder (zero for a zero
/// duration).
#[verifier::external_body]
fn timer_tick(kind: TimerKind, duration_ns: u64, elapsed_ns: u64, delta_ns: u64) -> (r: (u64, bool))
    ensures
        r == timer_tick_spec(kind, duration_ns, elapsed_ns, delta_ns),
{
    let mode = match kind {
        TimerKind::Once => TimerMode::Once,
        TimerKind::Repeating => TimerMode::Repeating,
    };
    let mut timer = Timer::new(Duration::from_nanos(duration_ns), mode);
    timer.set_elapsed(Duration::from_nanos(elapsed_ns));
    timer.tick(Duration::from_nanos(delta_ns));
    (timer.elapsed().as_nanos() as u64, timer.is_finished())
}

/// The repeating timer that paces nitro particle spawns.
#[derive(Clone, Copy, Debug, PartialEq, Eq, Structural)]
pub struct NitroParticleTimer {
    duration_ns: u64,
    elapsed_ns: u64,
}

impl NitroParticleTimer {
    pub closed spec fn spec_duration_ns(&self) -> u64 {
        self.duration_ns
    }

    pub closed spec fn spec_elapsed_ns(&self) -> u64 {
        self.elapsed_ns
    }

    /// A fresh spawn timer with the given period.
    pub fn new(duration_ns: u64) -> (t: NitroParticleTimer)
        ensures
            t.spec_duration_ns() == duration_ns,
            t.spec_elapsed_ns() == 0,
    {
        NitroParticleTimer { duration_ns, elapsed_ns: 0 }
    }

    pub fn duration_ns(&self) -> (d: u64)
        ensures
            d == self.spec_duration_ns(),
    {
        self.duration_ns
    }

    pub fn elapsed_ns(&self) -> (e: u64)
        ensures
            e == self.spec_elapsed_ns(),
    {
        self.elapsed_ns
    }

    /// One frame of the exhaust: while nitro is active the timer runs, and a
    /// burst of particles is due whenever it finishes; while nitro is off the
    /// timer is left alone and nothing spawns.
    pub fn step(&mut self, nitro_active: bool, delta_ns: u64) -> (spawn: bool)
        ensures
            !nitro_active ==> *final(self) == *old(self) && !spawn,
            nitro_active ==> {
                let (e, done) = timer_tick_spec(
                    TimerKind::Repeating,
                    old(self).spec_duration_ns(),
                    old(self).spec_elapsed_ns(),
                    delta_ns,
                );
                &&& final(self).spec_duration_ns() == old(self).spec_duration_ns()
                &&& final(self).spec_elapsed_ns() == e
                &&& spawn == done
            },
    {
        if !nitro_active {
            return false;
        }
        let (e, done) = timer_tick(TimerKind::Repeating, self.duration_ns, self.elapsed_ns, delta_ns);
        self.elapsed_ns = e;
        done
    }
}

/// How long a nitro particle has lived, out of its lifetime.
#[derive(Clone, Copy, Debug, PartialEq, Eq, Structural)]
pub struct ParticleLifetime {
    duration_ns: u64,
    elapsed_ns: u64,
}

impl ParticleLifetime {
    pub closed spec fn spec_duration_ns(&self) -> u64 {
        self.duration_ns
    }

    pub closed spec fn spec_elapsed_ns(&self) -> u64 {
        self.elapsed_ns
    }

    /// A particle that has just been born and lives for `duration_ns`.
    pub fn new(duration_ns: u64) -> (l: ParticleLifetime)
        ensures
            l.spec_duration_ns() == duration_ns,
            l.spec_elapsed_ns() == 0,
    {
        ParticleLifetime { duration_ns, elapsed_ns: 0 }
    }

    pub fn duration_ns(&self) -> (d: u64)
        ensures
            d == self.spec_duration_ns(),
    {
        self.duration_ns
    }

    pub fn elapsed_ns(&self) -> (e: u64)
        ensures
            e == self.spec_elapsed_ns(),
    {
        self.elapsed_ns
    }

    /// Ages the particle by `delta_ns`; returns whether its lifetime is over
    /// and it should be removed.
    pub fn tick(&mut self, delta_ns: u64) -> (expired: bool)
        ensures
            ({
                let (e, done) = timer_tick_spec(
                    TimerKind::Once,
                    old(self).spec_duration_ns(),
                    old(self).spec_elapsed_ns(),
                    delta_ns,
                );
                &&& final(self).spec_duration_ns() == old(self).spec_duration_ns()
                &&& final(self).spec_elapsed_ns() == e
                &&& expired == done
            }),
    {
        let (e, done) = timer_tick(TimerKind::Once, self.duration_ns, self.elapsed_ns, delta_ns);
        self.elapsed_ns = e;
        done
    }
}

/// The spawn timer always stays within one period: ticking a repeating
/// timer whose elapsed time is below its (non-zero) period leaves it below
/// the period, and a burst is due exactly when the accumulated time reaches
/// the period.
pub proof fn lemma_spawn_timer_within_period(duration: u64, elapsed: u64, delta: u64)
    requires
        0 < duration,
        elapsed < duration,
    ensures
        ({
            let (e, done) = timer_tick_spec(TimerKind::Repeating, duration, elapsed, delta);
            &&& e < duration
            &&& done <==> elapsed + delta >= duration
            &&& !done ==> e == elapsed + delta
        }),
{
}

/// A particle ages monotonically up to its lifetime and no further; it
/// expires exactly when its age reaches the lifetime, and an expired
/// particle stays expired with its age unchanged.
pub proof fn lemma_lifetime_ages_up_to_duration(duration: u64, elapsed: u64, delta: u64)
    requires
        elapsed <= duration,
    ensures
        ({
            let (e, done) = timer_tick_spec(TimerKind::Once, duration, elapsed, delta);
            &&& elapsed <= e <= duration
            &&& done <==> e == duration
            &&& elapsed == duration ==> done && e == duration
        }),
{
}

/// A timer tick in full: the timer finishes exactly when its elapsed time
/// plus the step reaches the duration; unfinished, it has advanced by the
/// step; a finished one-shot timer stops at its duration, and a finished
/// repeating timer keeps the remainder past whole periods (zero for a zero
/// duration).
pub proof fn lemma_timer_tick(kind: TimerKind, duration: u64, elapsed: u64, delta: u64)
    ensures
        ({
            let (e, done) = timer_tick_spec(kind, duration, elapsed, delta);
            &&& done <==> elapsed + delta >= duration
            &&& !done ==> e == elapsed + delta
            &&& done && kind == TimerKind::Once ==> e == duration
            &&& done && kind == TimerKind::Repeating && duration > 0 ==> e == (elapsed + delta)
                % (duration as int)
            &&& done && kind == TimerKind::Repeating && duration == 0 ==> e == 0
        }),
{
}

} // verus!
