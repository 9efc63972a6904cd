//! Laws of the counter over whole sequences of additions.
//!
//! A wait group admits one addition at a time, so whatever its users do, the
//! counter lives through some sequence of deltas. The functions below say
//! what the rule of [`Counter::add`](crate::counter::Counter::add) makes of
//! such a sequence, starting from a new counter, and the laws are proved of
//! every sequence.

use crate::counter::outcome_of;
use crate::counter::phase_of;
use crate::counter::state_after;
use crate::counter::Phase;
use crate::counter::State;
use crate::error::WaitGroupError;
use vstd::prelude::*;

verus! {

/// The sum of the first `n` of `deltas`.
pub open spec fn running_sum(deltas: Seq<i64>, n: int) -> int
    decreases n,
{
    if n <= 0 {
        0
    } else {
        running_sum(deltas, n - 1) + deltas[n - 1]
    }
}

/// The state after the first `n` of `deltas` were added, in order, to a new
/// counter.
pub open spec fn state_at(deltas: Seq<i64>, n: int) -> State
    decreases n,
{
    if n <= 0 {
        State::Counting(0)
    } else {
        state_after(state_at(deltas, n - 1), deltas[n - 1] as int)
    }
}

/// What the addition of `deltas[n]` reports when the `n` before it were made,
/// in order, on a new counter.
pub open spec fn outcome_at(deltas: Seq<i64>, n: int) -> Result<Phase, WaitGroupError> {
    outcome_of(state_at(deltas, n), deltas[n] as int)
}

/// What a waiter learns that looks at the counter after the first `n` of
/// `deltas` were added: `Ok(Phase::Idle)` lets it pass, `Ok(Phase::Active)`
/// lets it block, an error is handed on to its caller.
pub open spec fn waiter_at(deltas: Seq<i64>, n: int) -> Result<Phase, WaitGroupError> {
    outcome_of(state_at(deltas, n), 0)
}

/// Whether each of the first `n` running sums, the empty one included, is a
/// value that the counter can hold.
pub open spec fn sums_in_range(deltas: Seq<i64>, n: int) -> bool {
    forall|k: int| 0 <= k <= n ==> 0 <= #[trigger] running_sum(deltas, k) <= i64::MAX
}

/// Whatever is added, a counter that counts is never negative and never more
/// than it can hold.
pub proof fn law_counter_stays_in_range(deltas: Seq<i64>, n: int)
    ensures
        state_at(deltas, n) matches State::Counting(counter) ==> 0 <= counter <= i64::MAX,
    decreases n,
{
    if n > 0 {
        law_counter_stays_in_range(deltas, n - 1);
    }
}

/// While the running sums stay in range, every addition is accepted and the
/// counter is the running sum.
pub proof fn law_counter_follows_running_sum(deltas: Seq<i64>, n: int)
    requires
        0 <= n <= deltas.len(),
        sums_in_range(deltas, n),
    ensures
        state_at(deltas, n) == State::Counting(running_sum(deltas, n)),
        forall|k: int|
            0 <= k < n ==> #[trigger] outcome_at(deltas, k) == Ok::<Phase, WaitGroupError>(
                phase_of(running_sum(deltas, k + 1)),
            ),
    decreases n,
{
    if n > 0 {
        law_counter_follows_running_sum(deltas, n - 1);
    }
}

/// Balance: after additions whose running sum never leaves the range of the
/// counter and ends at zero, the counter is zero, and a waiter that looks at
/// it then finds the idle phase and does not block.
pub proof fn law_balanced_sequence_ends_idle(deltas: Seq<i64>)
    requires
        sums_in_range(deltas, deltas.len() as int),
        running_sum(deltas, deltas.len() as int) == 0,
    ensures
        forall|k: int| 0 <= k < deltas.len() ==> (#[trigger] outcome_at(deltas, k)) is Ok,
        state_at(deltas, deltas.len() as int) == State::Counting(0),
        waiter_at(deltas, deltas.len() as int) == Ok::<Phase, WaitGroupError>(Phase::Idle),
{
    law_counter_follows_running_sum(deltas, deltas.len() as int);
}

/// The first addition that takes the running sum out of the range of the
/// counter fails: as a negative counter where the sum is below zero, as an
/// overflow where it is too large. All before it were accepted, the counter
/// it met was the running sum, not something else, and it leaves the counter
/// failed.
pub proof fn law_first_sum_out_of_range_fails(deltas: Seq<i64>, at: int)
    requires
        0 <= at < deltas.len(),
        sums_in_range(deltas, at),
        !(0 <= running_sum(deltas, at + 1) <= i64::MAX),
    ensures
        forall|k: int| 0 <= k < at ==> (#[trigger] outcome_at(deltas, k)) is Ok,
        state_at(deltas, at) == State::Counting(running_sum(deltas, at)),
        running_sum(deltas, at + 1) < 0 ==> outcome_at(deltas, at) == Err::<Phase, WaitGroupError>(
            WaitGroupError::NegativeCounter,
        ),
        running_sum(deltas, at + 1) > i64::MAX ==> outcome_at(deltas, at) == Err::<
            Phase,
            WaitGroupError,
        >(WaitGroupError::Overflow),
        state_at(deltas, at + 1) == State::Failed,
{
    law_counter_follows_running_sum(deltas, at);
}

/// No later addition makes a failure good: once the counter has failed, it
/// is failed after every further addition, each of them is refused as
/// poisoned, and so is every waiter that looks at the counter.
pub proof fn law_failure_is_final(deltas: Seq<i64>, at: int, later: int)
    requires
        state_at(deltas, at) == State::Failed,
        at <= later,
    ensures
        state_at(deltas, later) == State::Failed,
        outcome_at(deltas, later) == Err::<Phase, WaitGroupError>(WaitGroupError::Poisoned),
        waiter_at(deltas, later) == Err::<Phase, WaitGroupError>(WaitGroupError::Poisoned),
    decreases later - at,
{
    if at < later {
        law_failure_is_final(deltas, at, later - 1);
    }
}

/// A round leaves nothing behind: once `first` has brought the counter back
/// to zero, the additions of `second` find what they would find on a new
/// counter, and report the same.
pub proof fn law_round_leaves_no_trace(first: Seq<i64>, second: Seq<i64>, n: int)
    requires
        state_at(first, first.len() as int) == State::Counting(0),
        0 <= n <= second.len(),
    ensures
        state_at(first + second, first.len() + n) == state_at(second, n),
        n < second.len() ==> outcome_at(first + second, first.len() + n) == outcome_at(second, n),
    decreases n,
{
    let both = first + second;
    if n == 0 {
        lemma_state_of_prefix(first, both, first.len() as int);
    } else {
        law_round_leaves_no_trace(first, second, n - 1);
    }
}

/// The state after `n` additions depends on the first `n` deltas only.
proof fn lemma_state_of_prefix(short: Seq<i64>, long: Seq<i64>, n: int)
    requires
        0 <= n <= short.len() <= long.len(),
        forall|k: int| 0 <= k < short.len() ==> short[k] == long[k],
    ensures
        state_at(long, n) == state_at(short, n),
    decreases n,
{
    if n > 0 {
        lemma_state_of_prefix(short, long, n - 1);
    }
}

} // verus!
