//! The wave scheduler: when, within one window, the next wave of attempts
//! is launched, and when launching ends.

use vstd::prelude::*;

verus! {

/// The length of one measurement window, in milliseconds.
pub const WINDOW_MILLIS: u64 = 10000;

/// The time from one wave to the next, in milliseconds.
pub const TICK_MILLIS: u64 = 1000;

/// How many ticks fit in one window.
pub const WAVES_PER_WINDOW: u64 = 10;

/// What the driver of a window does next.
#[derive(Clone, Copy, Debug, PartialEq, Eq, Structural)]
pub enum WaveAction {
    /// Launch `attempts` independent dispatch attempts without waiting for
    /// any of them, then pause for `pause_millis`.
    Launch { attempts: u64, pause_millis: u64 },
    /// Launch nothing more. Wait until every attempt of the window has
    /// completed: only then is the window's tally whole.
    AwaitOutstanding,
}

/// Whether another wave is launched: as long as the window's time has not
/// run out and not every tick of the window has had its wave.
pub open spec fn wave_due(waves: nat, elapsed_millis: u64) -> bool {
    waves < WAVES_PER_WINDOW && elapsed_millis < WINDOW_MILLIS
}

/// On a steady clock, where wave number `k` comes `k` ticks after the
/// start of the window, exactly the first `WAVES_PER_WINDOW` waves are
/// launched: one for each tick that fits in the window.
pub proof fn lemma_steady_clock_fills_window(k: nat)
    requires
        k * TICK_MILLIS <= u64::MAX,
    ensures
        wave_due(k, (k * TICK_MILLIS) as u64) <==> k < WAVES_PER_WINDOW,
        WAVES_PER_WINDOW * TICK_MILLIS == WINDOW_MILLIS,
{
}

/// The schedule of one window at a fixed throughput level.
#[derive(Clone, Copy, Debug)]
pub struct WaveScheduler {
    level: u64,
    waves: u64,
}

impl WaveScheduler {
    #[verifier::type_invariant]
    spec fn within_window(self) -> bool {
        self.waves <= WAVES_PER_WINDOW
    }

    /// The number of attempts in each wave.
    pub closed spec fn level(&self) -> u64 {
        self.level
    }

    /// The number of waves launched so far.
    pub closed spec fn waves(&self) -> u64 {
        self.waves
    }

    /// The number of attempts launched so far.
    pub open spec fn launched(&self) -> nat {
        (self.waves() * self.level()) as nat
    }

    /// The schedule of a window at `level` attempts per tick, before its
    /// first wave.
    pub fn new(level: u64) -> (scheduler: WaveScheduler)
        ensures
            scheduler.level() == level,
            scheduler.waves() == 0,
    {
        WaveScheduler { level, waves: 0 }
    }

    /// Decides the next step of the window, `elapsed_millis` after its
    /// start, and counts the wave if one is launched.
    pub fn next(&mut self, elapsed_millis: u64) -> (action: WaveAction)
        ensures
            final(self).level() == old(self).level(),
            wave_due(old(self).waves() as nat, elapsed_millis) ==> action == (WaveAction::Launch {
                attempts: old(self).level(),
                pause_millis: TICK_MILLIS,
            }) && final(self).waves() == old(self).waves() + 1,
            !wave_due(old(self).waves() as nat, elapsed_millis) ==> action == WaveAction::AwaitOutstanding
                && final(self).waves() == old(self).waves(),
    {
        if self.waves < WAVES_PER_WINDOW && elapsed_millis < WINDOW_MILLIS {
            self.waves = self.waves + 1;
            WaveAction::Launch { attempts: self.level, pause_millis: TICK_MILLIS }
        } else {
            WaveAction::AwaitOutstanding
        }
    }

    /// The number of waves launched so far.
    pub fn waves_launched(&self) -> (waves: u64)
        ensures
            waves == self.waves(),
            waves <= WAVES_PER_WINDOW,
    {
        proof {
            use_type_invariant(self);
        }
        self.waves
    }

    /// The number of attempts launched so far: the window's tally is whole
    /// once that many outcomes are counted.
    pub fn attempts_launched(&self) -> (attempts: u128)
        ensures
            attempts == self.launched(),
    {
        proof {
            use_type_invariant(self);
        }
        assert(self.waves * self.level <= 10 * 0xffff_ffff_ffff_ffff) by (nonlinear_arith)
            requires
                self.waves <= 10,
                self.level <= 0xffff_ffff_ffff_ffff,
        ;
        self.waves as u128 * self.level as u128
    }
}

} // verus!
