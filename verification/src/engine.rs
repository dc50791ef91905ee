//! The load test engine: one run against one target, from the opening line
//! of the log to the breaking point.

use vstd::prelude::*;
use crate::outcome::{classify, empty_tally, outcome_of, OutcomeCounter, Reply, WindowResult};
use crate::ramp::{
    after_window,
    decision_for,
    decision_lines,
    initial_state,
    level_of,
    marker_line,
    observed,
    Decision,
    RampState,
    RateController,
    LEVEL_STEP,
};
use crate::scheduler::{wave_due, WaveAction, WaveScheduler, TICK_MILLIS};
use crate::status::StatusLog;
use crate::url::TargetEndpoint;

verus! {

/// What a run holds.
pub struct LoadTestModel {
    /// The URL that every attempt goes to.
    pub target: Seq<char>,
    /// Where the ramp stands.
    pub state: RampState,
    /// The number of waves launched in the current window.
    pub waves: nat,
    /// The outcomes counted in the current window.
    pub tally: WindowResult,
    /// Whether the run was cancelled.
    pub cancelled: bool,
}

impl LoadTestModel {
    /// The number of attempts launched in the current window.
    pub open spec fn launched(self) -> nat {
        self.waves * level_of(self.state) as nat
    }

    /// Whether every attempt launched in the current window has been
    /// counted, once.
    pub open spec fn settled(self) -> bool {
        self.tally.total() == self.launched()
    }

    /// Whether the run goes on: it does until the breaking point is found
    /// or the run is cancelled.
    pub open spec fn active(self) -> bool {
        self.state is Ramping && !self.cancelled
    }

    /// Whether the current window can be closed: the run goes on and no
    /// attempt is outstanding.
    pub open spec fn closable(self) -> bool {
        self.active() && self.settled()
    }

    /// Whether a wave is launched `elapsed_millis` into the window.
    pub open spec fn launches(self, elapsed_millis: u64) -> bool {
        self.active() && wave_due(self.waves, elapsed_millis)
    }
}

/// The parts of a run that change while it runs.
#[derive(Clone, Copy)]
struct Progress {
    controller: RateController,
    scheduler: WaveScheduler,
    counter: OutcomeCounter,
    cancelled: bool,
}

/// One run of the load test against one target.
pub struct LoadTest {
    target: TargetEndpoint,
    progress: Progress,
}

impl View for LoadTest {
    type V = LoadTestModel;

    closed spec fn view(&self) -> LoadTestModel {
        LoadTestModel {
            target: self.target@,
            state: self.progress.controller@,
            waves: self.progress.scheduler.waves() as nat,
            tally: self.progress.counter@,
            cancelled: self.progress.cancelled,
        }
    }
}

impl LoadTest {
    #[verifier::type_invariant]
    spec fn consistent(self) -> bool {
        &&& self.progress.scheduler.level() == level_of(self.progress.controller@)
        &&& !(self.progress.controller@ is Evaluating)
    }

    /// Starts a run against `target`: writes the opening line to the log
    /// and stands before the first wave of the first window.
    pub fn start(target: TargetEndpoint, log: &mut StatusLog) -> (run: LoadTest)
        ensures
            run@ == (LoadTestModel {
                target: target@,
                state: initial_state(),
                waves: 0,
                tally: empty_tally(),
                cancelled: false,
            }),
            final(log)@ == old(log)@.push(marker_line()),
            old(log).text().is_prefix_of(final(log).text()),
    {
        let controller = RateController::start(log);
        let scheduler = WaveScheduler::new(controller.level());
        LoadTest {
            target,
            progress: Progress {
                controller,
                scheduler,
                counter: OutcomeCounter::new(),
                cancelled: false,
            },
        }
    }

    /// The URL that every attempt of the run goes to.
    pub fn target(&self) -> (url: &str)
        ensures
            url@ == self@.target,
    {
        self.target.as_str()
    }

    /// Where the ramp stands.
    pub fn state(&self) -> (state: RampState)
        ensures
            state == self@.state,
            !(state is Evaluating),
    {
        proof {
            use_type_invariant(self);
        }
        self.progress.controller.state()
    }

    /// Whether the run goes on: it does until the breaking point is found
    /// or the run is cancelled.
    pub fn is_active(&self) -> (active: bool)
        ensures
            active == self@.active(),
    {
        proof {
            use_type_invariant(self);
        }
        self.progress.controller.is_active() && !self.progress.cancelled
    }

    /// Cancels the run: no further wave is launched and no further window
    /// is decided on. Nothing is written to the log.
    pub fn cancel(&mut self)
        ensures
            final(self)@ == (LoadTestModel { cancelled: true, ..old(self)@ }),
    {
        proof {
            use_type_invariant(&*self);
        }
        self.progress = Progress { cancelled: true, ..self.progress };
    }

    /// Decides the next step of the current window, `elapsed_millis` after
    /// its start. A run that is over or cancelled launches nothing.
    pub fn next_wave(&mut self, elapsed_millis: u64) -> (action: WaveAction)
        ensures
            old(self)@.launches(elapsed_millis) ==> action == (WaveAction::Launch {
                attempts: level_of(old(self)@.state),
                pause_millis: TICK_MILLIS,
            }) && final(self)@ == (LoadTestModel { waves: old(self)@.waves + 1, ..old(self)@ }),
            !old(self)@.launches(elapsed_millis) ==> action == WaveAction::AwaitOutstanding
                && final(self)@ == old(self)@,
    {
        proof {
            use_type_invariant(&*self);
        }
        if !self.is_active() {
            return WaveAction::AwaitOutstanding;
        }
        let mut scheduler = self.progress.scheduler;
        let action = scheduler.next(elapsed_millis);
        self.progress = Progress { scheduler, ..self.progress };
        action
    }

    /// Counts the outcome of one attempt of the current window.
    pub fn record(&mut self, reply: Reply)
        ensures
            final(self)@ == (LoadTestModel {
                tally: old(self)@.tally.with(outcome_of(reply)),
                ..old(self)@
            }),
    {
        proof {
            use_type_invariant(&*self);
        }
        let mut counter = self.progress.counter;
        counter.record(classify(reply));
        self.progress = Progress { counter, ..self.progress };
    }

    /// The number of attempts of the current window that are launched and
    /// not yet counted.
    pub fn outstanding(&self) -> (missing: Option<u128>)
        ensures
            match missing {
                Some(n) => n == self@.launched() - self@.tally.total(),
                None => self@.launched() < self@.tally.total(),
            },
    {
        proof {
            use_type_invariant(self);
        }
        let launched: u128 = self.progress.scheduler.attempts_launched();
        let tally = self.progress.counter.snapshot();
        let counted: u128 = tally.successes as u128 + tally.failures as u128;
        if counted <= launched {
            Some(launched - counted)
        } else {
            None
        }
    }

    /// Closes the current window: decides on its tally, writes the lines
    /// of the decision to the log and, where the run goes on, stands
    /// before the first wave of the next window. The failure ratio is
    /// taken only from a window of which every attempt launched has been
    /// counted: while an attempt is outstanding, or when the run is over or
    /// cancelled, nothing happens.
    pub fn finish_window(&mut self, log: &mut StatusLog) -> (decision: Decision)
        requires
            old(self)@.closable() ==> level_of(old(self)@.state) + LEVEL_STEP <= u64::MAX,
        ensures
            old(self)@.closable() ==> {
                &&& final(self)@ == (LoadTestModel {
                    state: after_window(old(self)@.state, old(self)@.tally),
                    waves: 0,
                    tally: empty_tally(),
                    ..old(self)@
                })
                &&& decision == decision_for(observed(old(self)@.state, old(self)@.tally))
                &&& final(log)@ == old(log)@ + decision_lines(
                    observed(old(self)@.state, old(self)@.tally),
                )
            },
            !old(self)@.closable() ==> {
                &&& final(self)@ == old(self)@
                &&& decision == Decision::Idle
                &&& final(log)@ == old(log)@
            },
            old(log).text().is_prefix_of(final(log).text()),
    {
        proof {
            use_type_invariant(&*self);
        }
        let settled = match self.outstanding() {
            Some(missing) => missing == 0,
            None => false,
        };
        if !self.is_active() || !settled {
            return Decision::Idle;
        }
        let mut controller = self.progress.controller;
        let decision = controller.window_finished(self.progress.counter.snapshot(), log);
        self.progress = Progress {
            controller,
            scheduler: WaveScheduler::new(controller.level()),
            counter: OutcomeCounter::new(),
            cancelled: false,
        };
        decision
    }
}

} // verus!
