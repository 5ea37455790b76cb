use vstd::prelude::*;

verus! {

/// The least time, in milliseconds, between computing an answer and submitting
/// it: the vendor refuses answers that come back faster.
pub const MIN_SOLVE_MILLIS: u64 = 2000;

/// How long to wait before submitting, once `elapsed` milliseconds have passed.
pub open spec fn wait_for(elapsed: nat) -> nat {
    if elapsed < 2000 { (2000 - elapsed) as nat } else { 0 }
}

/// The wait still owed before a submission, given the milliseconds that solving took.
pub fn remaining_wait_millis(elapsed_millis: u64) -> (r: u64)
    ensures
        r == wait_for(elapsed_millis as nat),
{
    if elapsed_millis < MIN_SOLVE_MILLIS {
        MIN_SOLVE_MILLIS - elapsed_millis
    } else {
        0
    }
}

/// A solve that took `d` milliseconds is submitted no sooner than two seconds
/// after it began, and one that already took two seconds waits no more.
pub proof fn lemma_governor_floor(d: nat)
    ensures
        d + wait_for(d) >= 2000,
        d < 2000 ==> d + wait_for(d) == 2000,
        d >= 2000 ==> wait_for(d) == 0,
{
}

} // verus!
