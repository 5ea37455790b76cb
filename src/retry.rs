use vstd::prelude::*;
use crate::error::GtError;

verus! {

/// What to do after one attempt of solving and submitting.
#[derive(Debug)]
pub enum RetryStep {
    /// Fetch a fresh puzzle and attempt again.
    Refresh,
    /// Stop with this result.
    Finish(Result<String, GtError>),
}

/// The outcome of an attempt, through its text.
pub open spec fn outcome_view(o: Result<String, GtError>) -> Result<Seq<char>, GtError> {
    match o {
        Ok(s) => Ok(s@),
        Err(e) => Err(e),
    }
}

/// The decision after an attempt, when `done` refreshes of at most `max` have
/// been made: `None` to refresh, or the final result.
pub open spec fn decide(done: nat, max: nat, outcome: Result<Seq<char>, GtError>) -> Option<Result<Seq<char>, GtError>> {
    match outcome {
        Ok(v) => Some(Ok(v)),
        Err(e) => if e.spec_is_retryable() && done < max {
            None
        } else {
            Some(Err(e))
        },
    }
}

/// Feeds attempt outcomes to the driver until it finishes: the refreshes made
/// and, where it finished within `outcomes`, its result.
pub open spec fn drive(done: nat, max: nat, outcomes: Seq<Result<Seq<char>, GtError>>) -> (nat, Option<Result<Seq<char>, GtError>>)
    decreases outcomes.len(),
{
    if outcomes.len() == 0 {
        (done, None)
    } else {
        match decide(done, max, outcomes[0]) {
            None => drive(done + 1, max, outcomes.drop_first()),
            Some(r) => (done, Some(r)),
        }
    }
}

/// The retry loop's decisions: an accepted answer ends it, a failure that a
/// fresh puzzle may cure asks for a refresh while refreshes are left, and any
/// other failure ends it with that error.
#[derive(Debug)]
pub struct RetryDriver {
    refreshes: u64,
    max_refreshes: u64,
}

impl RetryDriver {
    pub closed spec fn spec_refreshes(&self) -> nat {
        self.refreshes as nat
    }

    pub closed spec fn spec_max_refreshes(&self) -> nat {
        self.max_refreshes as nat
    }

    pub open spec fn wf(&self) -> bool {
        self.spec_refreshes() <= self.spec_max_refreshes()
    }

    /// A driver that allows at most `max_refreshes` fresh puzzles.
    pub fn new(max_refreshes: u64) -> (r: RetryDriver)
        ensures
            r.wf(),
            r.spec_refreshes() == 0,
            r.spec_max_refreshes() == max_refreshes,
    {
        RetryDriver { refreshes: 0, max_refreshes }
    }

    /// The refreshes asked for so far.
    pub fn refreshes(&self) -> (r: u64)
        ensures
            r == self.spec_refreshes(),
    {
        self.refreshes
    }

    /// Decides what follows an attempt with the given outcome.
    pub fn on_outcome(&mut self, outcome: Result<String, GtError>) -> (r: RetryStep)
        requires
            old(self).wf(),
        ensures
            final(self).wf(),
            final(self).spec_max_refreshes() == old(self).spec_max_refreshes(),
            match decide(old(self).spec_refreshes(), old(self).spec_max_refreshes(), outcome_view(outcome)) {
                None => r is Refresh && final(self).spec_refreshes() == old(self).spec_refreshes() + 1,
                Some(res) => (r matches RetryStep::Finish(x) && outcome_view(x) == res)
                    && final(self).spec_refreshes() == old(self).spec_refreshes(),
            },
    {
        match outcome {
            Ok(v) => RetryStep::Finish(Ok(v)),
            Err(e) => {
                if e.is_retryable() && self.refreshes < self.max_refreshes {
                    self.refreshes = self.refreshes + 1;
                    RetryStep::Refresh
                } else {
                    RetryStep::Finish(Err(e))
                }
            },
        }
    }
}

/// Whether every outcome is a failure that a fresh puzzle may cure.
pub open spec fn all_retryable(outcomes: Seq<Result<Seq<char>, GtError>>) -> bool {
    forall|i: int| 0 <= i < outcomes.len() ==> ((#[trigger] outcomes[i]) matches Err(e) && e.spec_is_retryable())
}

/// An attempt that fails `n` times, each time curably, and then succeeds, ends
/// in that success after exactly `n` refreshes, where `n` refreshes are allowed.
pub proof fn lemma_retry_until_success(
    done: nat,
    max: nat,
    failures: Seq<Result<Seq<char>, GtError>>,
    v: Seq<char>,
)
    requires
        all_retryable(failures),
        done + failures.len() <= max,
    ensures
        drive(done, max, failures.push(Ok(v))) == (done + failures.len(), Some(Ok::<Seq<char>, GtError>(v))),
    decreases failures.len(),
{
    let all = failures.push(Ok(v));
    if failures.len() > 0 {
        assert(all.drop_first() =~= failures.drop_first().push(Ok(v)));
        assert(all[0] == failures[0]);
        assert(all_retryable(failures.drop_first())) by {
            assert forall|i: int| 0 <= i < failures.drop_first().len() implies
                ((#[trigger] failures.drop_first()[i]) matches Err(e) && e.spec_is_retryable()) by {
                assert(failures.drop_first()[i] == failures[i + 1]);
            }
        }
        lemma_retry_until_success(done + 1, max, failures.drop_first(), v);
    }
}

/// An attempt that never succeeds ends in an error once `max` refreshes are
/// spent, whatever the errors are.
pub proof fn lemma_retry_terminates(done: nat, max: nat, outcomes: Seq<Result<Seq<char>, GtError>>)
    requires
        done <= max,
        outcomes.len() > max - done,
        forall|i: int| 0 <= i < outcomes.len() ==> (#[trigger] outcomes[i]) is Err,
    ensures
        drive(done, max, outcomes).0 <= max,
        drive(done, max, outcomes).1 matches Some(Err(_)),
    decreases outcomes.len(),
{
    assert(outcomes[0] is Err);
    if decide(done, max, outcomes[0]) is None {
        assert forall|i: int| 0 <= i < outcomes.drop_first().len() implies
            (#[trigger] outcomes.drop_first()[i]) is Err by {
            assert(outcomes.drop_first()[i] == outcomes[i + 1]);
        }
        lemma_retry_terminates(done + 1, max, outcomes.drop_first());
    }
}

} // verus!
