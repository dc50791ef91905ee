//! The rate controller: the ramp of throughput levels, the decision on each
//! window, and the lines a run writes to the status log.

use vstd::prelude::*;
use vstd::string::StringExecFns;
use crate::outcome::WindowResult;
use crate::ratio::{exceeds_threshold, push_ratio, ratio_hundredths, ratio_text};
use crate::status::{lemma_joined_prefix, StatusLog};
use crate::text::{decimal, push_decimal};

verus! {

/// The throughput of the first window, in attempts per second.
pub const BASE_LEVEL: u64 = 10;

/// By how much the throughput rises from one window to the next.
pub const LEVEL_STEP: u64 = 10;

/// The failure ratio, in percent, above which the breaking point is found.
pub const FAILURE_THRESHOLD_PERCENT: u64 = 20;

/// The pause between two windows, in milliseconds.
pub const COOLDOWN_MILLIS: u64 = 5000;

/// Where a run stands.
#[derive(Clone, Copy, Debug, PartialEq, Eq, Structural)]
pub enum RampState {
    /// A window at `level` is due or under way.
    Ramping { level: u64 },
    /// The window at `level` has ended with `result`; the decision is due.
    Evaluating { level: u64, result: WindowResult },
    /// The window at `level` failed above the threshold, with `ratio` in
    /// hundredths of a percent. The run is over.
    BreakingPointFound { level: u64, ratio: u64 },
}

/// What the driver of a run does next.
#[derive(Clone, Copy, Debug, PartialEq, Eq, Structural)]
pub enum Decision {
    /// Pause for `cooldown_millis`, then run a window at `next_level`.
    Continue { next_level: u64, cooldown_millis: u64 },
    /// The breaking point is found: run no further window.
    Stop,
    /// Nothing was decided and nothing was written.
    Idle,
}

/// The throughput level that a state carries.
pub open spec fn level_of(state: RampState) -> u64 {
    match state {
        RampState::Ramping { level } => level,
        RampState::Evaluating { level, .. } => level,
        RampState::BreakingPointFound { level, .. } => level,
    }
}

/// The state in which every run starts.
pub open spec fn initial_state() -> RampState {
    RampState::Ramping { level: BASE_LEVEL }
}

/// The state after a window has ended with `result`. Only a ramping run
/// has a window to end.
pub open spec fn observed(state: RampState, result: WindowResult) -> RampState {
    match state {
        RampState::Ramping { level } => RampState::Evaluating { level, result },
        _ => state,
    }
}

/// The state after the decision: the breaking point where the failure ratio
/// is strictly above the threshold, else the next level.
pub open spec fn decided(state: RampState) -> RampState {
    match state {
        RampState::Evaluating { level, result } => if exceeds_threshold(
            result,
            FAILURE_THRESHOLD_PERCENT,
        ) {
            RampState::BreakingPointFound { level, ratio: ratio_hundredths(result) as u64 }
        } else {
            RampState::Ramping { level: (level + LEVEL_STEP) as u64 }
        },
        _ => state,
    }
}

/// The state after one whole window: its end and the decision on it.
pub open spec fn after_window(state: RampState, result: WindowResult) -> RampState {
    decided(observed(state, result))
}

/// What the driver is told by the decision on `state`.
pub open spec fn decision_for(state: RampState) -> Decision {
    match state {
        RampState::Evaluating { level, result } => if exceeds_threshold(
            result,
            FAILURE_THRESHOLD_PERCENT,
        ) {
            Decision::Stop
        } else {
            Decision::Continue {
                next_level: (level + LEVEL_STEP) as u64,
                cooldown_millis: COOLDOWN_MILLIS,
            }
        },
        _ => Decision::Idle,
    }
}

/// The line that opens a run.
pub open spec fn marker_line() -> Seq<char> {
    "Running load test..."@
}

/// The summary of one window.
pub open spec fn summary_line(level: u64, result: WindowResult) -> Seq<char> {
    "TPS: "@ + decimal(level as nat) + ", Failure rate: "@ + ratio_text(ratio_hundredths(result))
        + "%"@
}

/// The first of the two lines that close a run.
pub open spec fn breaking_line(level: u64) -> Seq<char> {
    "Breaking point reached! Failure rate exceeds "@ + decimal(FAILURE_THRESHOLD_PERCENT as nat)
        + "% at "@ + decimal(level as nat) + " TPS."@
}

/// The last line of a run.
pub open spec fn completed_line() -> Seq<char> {
    "Completed load test"@
}

/// The lines that the decision on `state` writes: the summary of the window,
/// and after it the two closing lines where the breaking point is found.
pub open spec fn decision_lines(state: RampState) -> Seq<Seq<char>> {
    match state {
        RampState::Evaluating { level, result } => if exceeds_threshold(
            result,
            FAILURE_THRESHOLD_PERCENT,
        ) {
            seq![summary_line(level, result), breaking_line(level), completed_line()]
        } else {
            seq![summary_line(level, result)]
        },
        _ => Seq::empty(),
    }
}

/// The line that reports a run that could not begin.
pub open spec fn abort_line(reason: Seq<char>) -> Seq<char> {
    "Load test aborted: "@ + reason
}

/// Reports in the log that a run could not begin, with the reason. A run
/// that cannot set up what it needs ends here, with this one line.
pub fn report_abort(log: &mut StatusLog, reason: &str)
    ensures
        final(log)@ == old(log)@.push(abort_line(reason@)),
        old(log).text().is_prefix_of(final(log).text()),
{
    let line = String::from_str("Load test aborted: ").concat(reason);
    log.append(line.as_str());
}

/// The text of a window's summary line.
pub fn summary_text(level: u64, result: WindowResult) -> (text: String)
    ensures
        text@ == summary_line(level, result),
{
    let mut text = String::from_str("TPS: ");
    push_decimal(&mut text, level);
    text.append(", Failure rate: ");
    push_ratio(&mut text, result.failure_ratio());
    text.append("%");
    text
}

/// The text of the line that reports the breaking point.
pub fn breaking_text(level: u64) -> (text: String)
    ensures
        text@ == breaking_line(level),
{
    let mut text = String::from_str("Breaking point reached! Failure rate exceeds ");
    push_decimal(&mut text, FAILURE_THRESHOLD_PERCENT);
    text.append("% at ");
    push_decimal(&mut text, level);
    text.append(" TPS.");
    text
}

/// The rate controller of one run.
#[derive(Clone, Copy, Debug)]
pub struct RateController {
    state: RampState,
}

impl View for RateController {
    type V = RampState;

    closed spec fn view(&self) -> RampState {
        self.state
    }
}

impl RateController {
    /// Starts a run: writes the opening line to the log, so that a viewer
    /// has feedback before the first window ends, and stands at the base
    /// level.
    pub fn start(log: &mut StatusLog) -> (controller: RateController)
        ensures
            controller@ == initial_state(),
            final(log)@ == old(log)@.push(marker_line()),
            old(log).text().is_prefix_of(final(log).text()),
    {
        log.append("Running load test...");
        RateController { state: RampState::Ramping { level: BASE_LEVEL } }
    }

    /// Where the run stands.
    pub fn state(&self) -> (state: RampState)
        ensures
            state == self@,
    {
        self.state
    }

    /// The throughput level of the current window, or of the last one when
    /// the run is over.
    pub fn level(&self) -> (level: u64)
        ensures
            level == level_of(self@),
    {
        match self.state {
            RampState::Ramping { level } => level,
            RampState::Evaluating { level, .. } => level,
            RampState::BreakingPointFound { level, .. } => level,
        }
    }

    /// Whether the run goes on: it does until the breaking point is found.
    pub fn is_active(&self) -> (active: bool)
        ensures
            active == !(self@ is BreakingPointFound),
    {
        match self.state {
            RampState::BreakingPointFound { .. } => false,
            _ => true,
        }
    }

    /// Takes the result of the window that has ended. Does nothing unless
    /// the run is ramping.
    pub fn observe(&mut self, result: WindowResult)
        ensures
            final(self)@ == observed(old(self)@, result),
    {
        if let RampState::Ramping { level } = self.state {
            self.state = RampState::Evaluating { level, result };
        }
    }

    /// Decides on the window that has ended and writes the outcome to the
    /// log. Does nothing unless a window is waiting for its decision.
    pub fn decide(&mut self, log: &mut StatusLog) -> (decision: Decision)
        requires
            old(self)@ is Evaluating ==> level_of(old(self)@) + LEVEL_STEP <= u64::MAX,
        ensures
            final(self)@ == decided(old(self)@),
            decision == decision_for(old(self)@),
            final(log)@ == old(log)@ + decision_lines(old(self)@),
            old(log).text().is_prefix_of(final(log).text()),
    {
        proof {
            lemma_joined_prefix(old(log)@, old(log)@ + decision_lines(self@));
        }
        match self.state {
            RampState::Evaluating { level, result } => {
                let summary = summary_text(level, result);
                log.append(summary.as_str());
                if result.exceeds(FAILURE_THRESHOLD_PERCENT) {
                    let breaking = breaking_text(level);
                    log.append(breaking.as_str());
                    log.append("Completed load test");
                    self.state = RampState::BreakingPointFound {
                        level,
                        ratio: result.failure_ratio(),
                    };
                    Decision::Stop
                } else {
                    let next_level: u64 = level + LEVEL_STEP;
                    self.state = RampState::Ramping { level: next_level };
                    Decision::Continue { next_level, cooldown_millis: COOLDOWN_MILLIS }
                }
            },
            _ => Decision::Idle,
        }
    }

    /// Handles the end of a window in one step: takes its result, gives the
    /// decision and writes it to the log.
    pub fn window_finished(&mut self, result: WindowResult, log: &mut StatusLog) -> (decision:
        Decision)
        requires
            !(old(self)@ is BreakingPointFound) ==> level_of(old(self)@) + LEVEL_STEP <= u64::MAX,
        ensures
            final(self)@ == after_window(old(self)@, result),
            decision == decision_for(observed(old(self)@, result)),
            final(log)@ == old(log)@ + decision_lines(observed(old(self)@, result)),
            old(log).text().is_prefix_of(final(log).text()),
    {
        self.observe(result);
        self.decide(log)
    }
}

/// The level of a run never falls: a window leaves it where it is or
/// raises it by exactly one step.
pub proof fn lemma_level_never_falls(state: RampState, result: WindowResult)
    requires
        level_of(state) + LEVEL_STEP <= u64::MAX,
    ensures
        level_of(after_window(state, result)) == level_of(state) || level_of(
            after_window(state, result),
        ) == level_of(state) + LEVEL_STEP,
        after_window(state, result) is Ramping && !(state is BreakingPointFound) ==> level_of(
            after_window(state, result),
        ) == level_of(state) + LEVEL_STEP,
{
}

/// The state of a run whose windows have ended with `results`, in order.
/// Once the breaking point is found no further window counts.
pub open spec fn run_state(results: Seq<WindowResult>) -> RampState
    decreases results.len(),
{
    if results.len() == 0 {
        initial_state()
    } else {
        after_window(run_state(results.drop_last()), results.last())
    }
}

/// Everything that a run writes to the log while its windows end with
/// `results`: the opening line, then the lines of each window that ran.
pub open spec fn run_lines(results: Seq<WindowResult>) -> Seq<Seq<char>>
    decreases results.len(),
{
    if results.len() == 0 {
        seq![marker_line()]
    } else {
        run_lines(results.drop_last()) + decision_lines(
            observed(run_state(results.drop_last()), results.last()),
        )
    }
}

/// Whether the failure ratio of some window is strictly above the
/// threshold.
pub open spec fn some_window_above(results: Seq<WindowResult>) -> bool {
    exists|i: int|
        0 <= i < results.len() && #[trigger] exceeds_threshold(
            results[i],
            FAILURE_THRESHOLD_PERCENT,
        )
}

/// Some window is above the threshold if and only if one before the last
/// is, or the last.
proof fn lemma_above_splits(results: Seq<WindowResult>)
    requires
        results.len() > 0,
    ensures
        some_window_above(results) <==> some_window_above(results.drop_last())
            || exceeds_threshold(results.last(), FAILURE_THRESHOLD_PERCENT),
{
    let earlier = results.drop_last();
    if some_window_above(earlier) {
        let i = choose|i: int|
            0 <= i < earlier.len() && #[trigger] exceeds_threshold(
                earlier[i],
                FAILURE_THRESHOLD_PERCENT,
            );
        assert(exceeds_threshold(results[i], FAILURE_THRESHOLD_PERCENT));
    }
    if exceeds_threshold(results.last(), FAILURE_THRESHOLD_PERCENT) {
        assert(exceeds_threshold(results[results.len() - 1], FAILURE_THRESHOLD_PERCENT));
    }
    if some_window_above(results) {
        let i = choose|i: int|
            0 <= i < results.len() && #[trigger] exceeds_threshold(
                results[i],
                FAILURE_THRESHOLD_PERCENT,
            );
        if i < results.len() - 1 {
            assert(exceeds_threshold(earlier[i], FAILURE_THRESHOLD_PERCENT));
        }
    }
}

/// While no window is above the threshold the run keeps ramping, and the
/// level after `k` windows is the base level plus `k` steps: each window
/// runs exactly one step above the window before it.
pub proof fn lemma_levels_rise_by_step(results: Seq<WindowResult>)
    requires
        !some_window_above(results),
        BASE_LEVEL + LEVEL_STEP * results.len() <= u64::MAX,
    ensures
        run_state(results) == (RampState::Ramping {
            level: (BASE_LEVEL + LEVEL_STEP * results.len()) as u64,
        }),
        results.len() > 0 ==> level_of(run_state(results)) == level_of(
            run_state(results.drop_last()),
        ) + LEVEL_STEP,
    decreases results.len(),
{
    if results.len() > 0 {
        lemma_above_splits(results);
        lemma_levels_rise_by_step(results.drop_last());
    }
}

/// A run reaches its breaking point if and only if the failure ratio of
/// some window is strictly above the threshold.
pub proof fn lemma_breaks_iff_some_window_above(results: Seq<WindowResult>)
    ensures
        run_state(results) is BreakingPointFound <==> some_window_above(results),
        !(run_state(results) is Evaluating),
    decreases results.len(),
{
    if results.len() > 0 {
        lemma_above_splits(results);
        lemma_breaks_iff_some_window_above(results.drop_last());
    }
}

/// The breaking point is reported for the first window above the
/// threshold: at that window's level, with that window's ratio.
pub proof fn lemma_breaks_at_first_window_above(results: Seq<WindowResult>, first: int)
    requires
        0 <= first < results.len(),
        !some_window_above(results.take(first)),
        exceeds_threshold(results[first], FAILURE_THRESHOLD_PERCENT),
        BASE_LEVEL + LEVEL_STEP * first <= u64::MAX,
    ensures
        run_state(results) == (RampState::BreakingPointFound {
            level: (BASE_LEVEL + LEVEL_STEP * first) as u64,
            ratio: ratio_hundredths(results[first]) as u64,
        }),
    decreases results.len(),
{
    if first == results.len() - 1 {
        assert(results.drop_last() == results.take(first));
        lemma_levels_rise_by_step(results.take(first));
    } else {
        assert(results.drop_last().take(first) == results.take(first));
        lemma_breaks_at_first_window_above(results.drop_last(), first);
    }
}

/// Drives a whole run over windows whose results are given: starts the
/// run, then hands over one result after the other until the breaking
/// point is found or the results are used up.
pub fn run_windows(results: &Vec<WindowResult>, log: &mut StatusLog) -> (controller:
    RateController)
    requires
        BASE_LEVEL + LEVEL_STEP * results.len() <= u64::MAX,
    ensures
        controller@ == run_state(results@),
        final(log)@ == old(log)@ + run_lines(results@),
        old(log).text().is_prefix_of(final(log).text()),
{
    let mut controller = RateController::start(log);
    let mut i: usize = 0;
    while i < results.len() && controller.is_active()
        invariant
            i <= results.len(),
            BASE_LEVEL + LEVEL_STEP * results.len() <= u64::MAX,
            controller@ == run_state(results@.take(i as int)),
            level_of(controller@) <= BASE_LEVEL + LEVEL_STEP * i,
            log@ == old(log)@ + run_lines(results@.take(i as int)),
        decreases results.len() - i,
    {
        assert(results@.take(i + 1).drop_last() == results@.take(i as int));
        controller.window_finished(results[i], log);
        i = i + 1;
    }
    proof {
        lemma_run_settles(results@, i as int);
        lemma_joined_prefix(old(log)@, log@);
    }
    controller
}

/// After the breaking point neither the state nor the log changes.
proof fn lemma_run_settles(results: Seq<WindowResult>, k: int)
    requires
        0 <= k <= results.len(),
        k == results.len() || run_state(results.take(k)) is BreakingPointFound,
    ensures
        run_state(results) == run_state(results.take(k)),
        run_lines(results) == run_lines(results.take(k)),
    decreases results.len() - k,
{
    if k == results.len() {
        assert(results.take(k) == results);
    } else {
        assert(results.take(k + 1).drop_last() == results.take(k));
        lemma_run_settles(results, k + 1);
    }
}

} // verus!
