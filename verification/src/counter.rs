//! The counter of a wait group and the rule by which it changes.
//!
//! Everything here is sequential: a [`Counter`] is the value that the wait
//! group keeps behind its lock, and [`Counter::add`] is the whole of what
//! happens to it inside one critical section.
//!
//! A counter that was asked to go below zero, or above what it can hold, has
//! failed, and stays failed: it has no value any more, and whoever comes to
//! it afterwards is told so.

use crate::error::WaitGroupError;
use vstd::prelude::*;

verus! {

/// The coarse state of a wait group that counts.
#[derive(Clone, Copy, PartialEq, Eq, Debug, Structural)]
pub enum Phase {
    /// Nothing is outstanding: waiters pass.
    Idle,
    /// Work is outstanding: waiters block.
    Active,
}

/// What a counter is, as the contracts see it.
pub enum State {
    /// So many units of work are registered and not yet completed.
    Counting(int),
    /// An addition has failed. There is no count any more.
    Failed,
}

/// The phase that goes with a counter value.
pub open spec fn phase_of(counter: int) -> Phase {
    if counter > 0 {
        Phase::Active
    } else {
        Phase::Idle
    }
}

/// The counter that results from adding `delta` to `counter`, or the reason
/// why the addition fails.
pub open spec fn checked_sum(counter: int, delta: int) -> Result<int, WaitGroupError> {
    let sum = counter + delta;
    if sum < 0 {
        Err(WaitGroupError::NegativeCounter)
    } else if sum > i64::MAX {
        Err(WaitGroupError::Overflow)
    } else {
        Ok(sum)
    }
}

/// The state that an addition leaves behind: the sum, or failure, and failure
/// where it finds failure.
pub open spec fn state_after(state: State, delta: int) -> State {
    match state {
        State::Counting(counter) => match checked_sum(counter, delta) {
            Ok(sum) => State::Counting(sum),
            Err(_) => State::Failed,
        },
        State::Failed => State::Failed,
    }
}

/// What an addition reports: the phase of the sum, or the reason for which it
/// fails, or that the counter had failed before.
///
/// With a `delta` of zero this is what one who only looks at the counter
/// learns, a waiter for one.
pub open spec fn outcome_of(state: State, delta: int) -> Result<Phase, WaitGroupError> {
    match state {
        State::Counting(counter) => match checked_sum(counter, delta) {
            Ok(sum) => Ok(phase_of(sum)),
            Err(error) => Err(error),
        },
        State::Failed => Err(WaitGroupError::Poisoned),
    }
}

/// An accepted addition reports the phase in which it leaves the counter, and
/// that phase is idle exactly when the sum is zero. An addition that is not
/// accepted leaves the counter failed.
///
/// A wait group wakes its waiters when an addition reports the idle phase and
/// lets a waiter block while the phase is active, so this says that the
/// additions that wake are just those after which a waiter would not block.
pub proof fn law_idle_exactly_at_zero(counter: int, delta: int)
    ensures
        outcome_of(State::Counting(counter), delta) matches Ok(phase) ==> outcome_of(
            state_after(State::Counting(counter), delta),
            0,
        ) == Ok::<Phase, WaitGroupError>(phase),
        outcome_of(State::Counting(counter), delta) == Ok::<Phase, WaitGroupError>(Phase::Idle)
            <==> counter + delta == 0,
        outcome_of(State::Counting(counter), delta) is Err ==> state_after(
            State::Counting(counter),
            delta,
        ) == State::Failed,
{
}

/// Failure is final: on a failed counter every addition is refused as
/// poisoned and leaves the counter failed, and one who looks at it is told
/// the same.
pub proof fn law_failed_stays_failed(delta: int)
    ensures
        state_after(State::Failed, delta) == State::Failed,
        outcome_of(State::Failed, delta) == Err::<Phase, WaitGroupError>(WaitGroupError::Poisoned),
{
}

/// Two additions that are accepted in either order leave the same counter in
/// either order: where the lock admits them one right after the other, it
/// does not matter which of them it admits first.
pub proof fn law_accepted_additions_commute(counter: int, one: int, other: int)
    requires
        outcome_of(State::Counting(counter), one) is Ok,
        outcome_of(state_after(State::Counting(counter), one), other) is Ok,
        outcome_of(State::Counting(counter), other) is Ok,
        outcome_of(state_after(State::Counting(counter), other), one) is Ok,
    ensures
        state_after(state_after(State::Counting(counter), one), other) == state_after(
            state_after(State::Counting(counter), other),
            one,
        ),
{
}

/// The number of units of work that are registered and not yet completed, or
/// the mark that an addition has failed.
///
/// While it counts, it is never negative.
pub struct Counter {
    value: i64,
    failed: bool,
}

impl View for Counter {
    type V = State;

    closed spec fn view(&self) -> State {
        if self.failed {
            State::Failed
        } else {
            State::Counting(self.value as int)
        }
    }
}

impl Counter {
    /// What holds of every counter in executable code: a count is not
    /// negative and fits the integer that stores it.
    #[verifier::type_invariant]
    pub open spec fn wf(&self) -> bool {
        self@ matches State::Counting(counter) ==> 0 <= counter <= i64::MAX
    }

    /// A counter with nothing outstanding.
    pub fn new() -> (counter: Self)
        ensures
            counter@ == State::Counting(0),
    {
        Counter { value: 0, failed: false }
    }

    /// Adds `delta`, which may be negative, and reports the phase reached.
    ///
    /// A sum below zero or above `i64::MAX` is an error and the counter fails
    /// on it. A counter that has failed reports that it is poisoned, whatever
    /// is added.
    pub fn add(&mut self, delta: i64) -> (outcome: Result<Phase, WaitGroupError>)
        ensures
            final(self)@ == state_after(old(self)@, delta as int),
            outcome == outcome_of(old(self)@, delta as int),
    {
        proof {
            use_type_invariant(&*self);
        }
        if self.failed {
            return Err(WaitGroupError::Poisoned);
        }
        match self.value.checked_add(delta) {
            None => {
                self.failed = true;
                Err(WaitGroupError::Overflow)
            },
            Some(sum) => {
                if sum < 0 {
                    self.failed = true;
                    Err(WaitGroupError::NegativeCounter)
                } else {
                    self.value = sum;
                    if sum == 0 {
                        Ok(Phase::Idle)
                    } else {
                        Ok(Phase::Active)
                    }
                }
            },
        }
    }

    /// Completes one unit of work: the same as adding -1.
    pub fn done(&mut self) -> (outcome: Result<Phase, WaitGroupError>)
        ensures
            final(self)@ == state_after(old(self)@, -1),
            outcome == outcome_of(old(self)@, -1),
    {
        self.add(-1)
    }

    /// What one who only looks at the counter learns: the phase it is in, or
    /// that it has failed. It is what adding zero would report.
    pub fn phase(&self) -> (outcome: Result<Phase, WaitGroupError>)
        ensures
            outcome == outcome_of(self@, 0),
    {
        proof {
            use_type_invariant(self);
        }
        if self.failed {
            Err(WaitGroupError::Poisoned)
        } else if self.value > 0 {
            Ok(Phase::Active)
        } else {
            Ok(Phase::Idle)
        }
    }

    /// Whether a waiter that sees this counter has to block: it has, while
    /// the counter counts and work is outstanding.
    pub fn is_active(&self) -> (active: bool)
        ensures
            active <==> outcome_of(self@, 0) == Ok::<Phase, WaitGroupError>(Phase::Active),
    {
        proof {
            use_type_invariant(self);
        }
        !self.failed && self.value > 0
    }

    /// The number of outstanding units, or `None` if the counter has failed.
    pub fn value(&self) -> (value: Option<i64>)
        ensures
            match self@ {
                State::Counting(counter) => value == Some(counter as i64) && counter == counter as i64,
                State::Failed => value.is_none(),
            },
    {
        if self.failed {
            None
        } else {
            Some(self.value)
        }
    }
}

} // verus!
