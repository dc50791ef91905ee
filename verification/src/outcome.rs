//! Outcomes of single dispatch attempts and their tally over one window.

use vstd::prelude::*;

verus! {

/// The classification of one dispatch attempt.
#[derive(Clone, Copy, Debug, PartialEq, Eq, Structural)]
pub enum Outcome {
    Success,
    Failure,
}

/// What the HTTP collaborator learned from one GET: a status code, or no
/// response at all (connection refused, DNS failure, timeout, TLS error).
#[derive(Clone, Copy, Debug, PartialEq, Eq, Structural)]
pub enum Reply {
    Status(u16),
    TransportFault,
}

/// The success range of HTTP status codes.
pub open spec fn is_success_status(code: u16) -> bool {
    200 <= code < 300
}

/// An attempt succeeds exactly when a response arrived with a status code
/// in the success range; every other cause is one and the same failure.
pub open spec fn outcome_of(reply: Reply) -> Outcome {
    match reply {
        Reply::Status(code) => if is_success_status(code) {
            Outcome::Success
        } else {
            Outcome::Failure
        },
        Reply::TransportFault => Outcome::Failure,
    }
}

/// Classifies one reply.
pub fn classify(reply: Reply) -> (outcome: Outcome)
    ensures
        outcome == outcome_of(reply),
{
    match reply {
        Reply::Status(code) => {
            if 200 <= code && code < 300 {
                Outcome::Success
            } else {
                Outcome::Failure
            }
        },
        Reply::TransportFault => Outcome::Failure,
    }
}

/// The tally of one measurement window.
#[derive(Clone, Copy, Debug, PartialEq, Eq, Structural)]
pub struct WindowResult {
    pub successes: u64,
    pub failures: u64,
}

impl WindowResult {
    /// The number of attempts that completed in the window.
    pub open spec fn total(self) -> nat {
        (self.successes + self.failures) as nat
    }

    /// The tally with one more outcome recorded. A counter that stands at
    /// its maximum wraps around to zero.
    pub open spec fn with(self, outcome: Outcome) -> WindowResult {
        match outcome {
            Outcome::Success => WindowResult {
                successes: if self.successes == u64::MAX {
                    0
                } else {
                    (self.successes + 1) as u64
                },
                failures: self.failures,
            },
            Outcome::Failure => WindowResult {
                successes: self.successes,
                failures: if self.failures == u64::MAX {
                    0
                } else {
                    (self.failures + 1) as u64
                },
            },
        }
    }
}

/// The tally before anything was recorded.
pub open spec fn empty_tally() -> WindowResult {
    WindowResult { successes: 0, failures: 0 }
}

/// The tally reached from `start` by recording `outcomes` in order.
pub open spec fn recorded(start: WindowResult, outcomes: Seq<Outcome>) -> WindowResult
    decreases outcomes.len(),
{
    if outcomes.len() == 0 {
        start
    } else {
        recorded(start, outcomes.drop_last()).with(outcomes.last())
    }
}

/// How many of `outcomes` are of the given kind.
pub open spec fn count_of(outcomes: Seq<Outcome>, kind: Outcome) -> nat
    decreases outcomes.len(),
{
    if outcomes.len() == 0 {
        0
    } else {
        count_of(outcomes.drop_last(), kind) + if outcomes.last() == kind {
            1nat
        } else {
            0nat
        }
    }
}

/// Every outcome is a success or a failure, so the two counts add up to
/// the number of outcomes.
pub proof fn lemma_counts_partition(outcomes: Seq<Outcome>)
    ensures
        count_of(outcomes, Outcome::Success) + count_of(outcomes, Outcome::Failure)
            == outcomes.len(),
    decreases outcomes.len(),
{
    if outcomes.len() > 0 {
        lemma_counts_partition(outcomes.drop_last());
    }
}

/// Recording from zero counts each kind exactly, as long as the number of
/// outcomes fits in a counter.
pub proof fn lemma_recorded_counts(outcomes: Seq<Outcome>)
    requires
        outcomes.len() <= u64::MAX,
    ensures
        recorded(empty_tally(), outcomes).successes == count_of(outcomes, Outcome::Success),
        recorded(empty_tally(), outcomes).failures == count_of(outcomes, Outcome::Failure),
    decreases outcomes.len(),
{
    if outcomes.len() > 0 {
        lemma_recorded_counts(outcomes.drop_last());
        lemma_counts_partition(outcomes.drop_last());
    }
}

/// No attempt is counted twice and none is dropped: after recording the
/// outcomes of a window from zero, successes and failures together equal
/// the number of outcomes recorded.
pub proof fn lemma_every_attempt_counted(outcomes: Seq<Outcome>)
    requires
        outcomes.len() <= u64::MAX,
    ensures
        recorded(empty_tally(), outcomes).total() == outcomes.len(),
{
    lemma_recorded_counts(outcomes);
    lemma_counts_partition(outcomes);
}

/// Success and failure counters of one window. Increments wrap around
/// instead of overflowing.
#[derive(Clone, Copy, Debug)]
pub struct OutcomeCounter {
    successes: u64,
    failures: u64,
}

impl View for OutcomeCounter {
    type V = WindowResult;

    closed spec fn view(&self) -> WindowResult {
        WindowResult { successes: self.successes, failures: self.failures }
    }
}

impl OutcomeCounter {
    /// A counter with both tallies at zero, as at the start of a window.
    pub fn new() -> (counter: OutcomeCounter)
        ensures
            counter@ == empty_tally(),
    {
        OutcomeCounter { successes: 0, failures: 0 }
    }

    /// Counts one success.
    pub fn record_success(&mut self)
        ensures
            final(self)@ == old(self)@.with(Outcome::Success),
    {
        self.successes = self.successes.wrapping_add(1);
    }

    /// Counts one failure.
    pub fn record_failure(&mut self)
        ensures
            final(self)@ == old(self)@.with(Outcome::Failure),
    {
        self.failures = self.failures.wrapping_add(1);
    }

    /// Counts one outcome of either kind.
    pub fn record(&mut self, outcome: Outcome)
        ensures
            final(self)@ == old(self)@.with(outcome),
    {
        match outcome {
            Outcome::Success => self.record_success(),
            Outcome::Failure => self.record_failure(),
        }
    }

    /// The tallies as they stand.
    pub fn snapshot(&self) -> (result: WindowResult)
        ensures
            result == self@,
    {
        WindowResult { successes: self.successes, failures: self.failures }
    }
}

/// Tallies the outcomes of one window.
pub fn tally(outcomes: &Vec<Outcome>) -> (result: WindowResult)
    ensures
        result == recorded(empty_tally(), outcomes@),
        result.successes == count_of(outcomes@, Outcome::Success),
        result.failures == count_of(outcomes@, Outcome::Failure),
        result.total() == outcomes@.len(),
{
    let mut counter = OutcomeCounter::new();
    let mut i: usize = 0;
    while i < outcomes.len()
        invariant
            i <= outcomes.len(),
            counter@ == recorded(empty_tally(), outcomes@.take(i as int)),
        decreases outcomes.len() - i,
    {
        assert(outcomes@.take(i + 1).drop_last() == outcomes@.take(i as int));
        counter.record(outcomes[i]);
        i = i + 1;
    }
    proof {
        assert(outcomes@.take(i as int) == outcomes@);
        lemma_recorded_counts(outcomes@);
        lemma_counts_partition(outcomes@);
    }
    counter.snapshot()
}

} // verus!
