//! A wait group: a counter of outstanding units of work that threads can wait
//! on until it is back at zero.
//!
//! A producer registers work with [`WaitGroup::add`] and reports each finished
//! unit with [`WaitGroup::done`]; any number of threads block in
//! [`WaitGroup::wait`] until nothing is outstanding. Handles are cheap to
//! clone and all clones share one counter.
//!
//! The counter and the rule by which it changes are in [`counter`], what the
//! rule makes of whole sequences of additions is proved in [`history`], and
//! [`sync`] lists what is taken from `std::sync` on trust.

pub mod counter;
pub mod error;
pub mod history;
pub mod sync;

use crate::counter::Counter;
use crate::counter::Phase;
use crate::counter::State;
use crate::error::WaitGroupError;
use crate::sync::initial_state;
use crate::sync::new_lock;
use crate::sync::wait_while_active;
use std::ops::DerefMut;
use std::sync::Arc;
use std::sync::Condvar;
use std::sync::Mutex;
use vstd::prelude::*;

verus! {

/// A handle to a wait group.
///
/// The counter sits behind a lock, together with the condition variable on
/// which waiters sleep. Both are shared by every clone of the handle and go
/// away with the last of them.
pub struct WaitGroup {
    shared: Arc<(Mutex<Counter>, Condvar)>,
}

impl WaitGroup {
    /// The state of the counter that the group was made with: where the
    /// sequence of additions that the group lives through starts.
    pub closed spec fn initial(&self) -> State {
        initial_state(self.shared.0)
    }

    /// A wait group with nothing outstanding: its counter starts at zero.
    pub fn new() -> (group: Self)
        ensures
            group.initial() == State::Counting(0),
    {
        WaitGroup { shared: Arc::new((new_lock(Counter::new()), Condvar::new())) }
    }

    /// Adds `delta`, which may be negative, to the counter, and wakes every
    /// waiter if that brings the counter to zero.
    ///
    /// The counter is updated by [`Counter::add`] while the lock is held. Which
    /// state it finds there is up to the other users of the group, so of the
    /// outcome only this is fixed: a counter is never negative, hence nothing
    /// but a negative `delta` can take it below zero, nothing but a positive
    /// one can overflow it, and an addition of `i64::MIN` is never accepted.
    ///
    /// An addition that takes the counter below zero or overflows it is a
    /// fatal error, and the group is poisoned by it: the failure stays in the
    /// counter, so that from then on every `add`, `done` and `wait`, through
    /// whichever handle, returns [`WaitGroupError::Poisoned`]. Waiters are not
    /// woken for it.
    pub fn add(&self, delta: i64) -> (outcome: Result<(), WaitGroupError>)
        ensures
            match outcome {
                Ok(_) => delta > i64::MIN,
                Err(WaitGroupError::NegativeCounter) => delta < 0,
                Err(WaitGroupError::Overflow) => delta > 0,
                Err(WaitGroupError::Poisoned) => true,
            },
    {
        match self.shared.0.lock() {
            Err(_) => Err(WaitGroupError::Poisoned),
            Ok(mut guard) => {
                let counter = guard.deref_mut();
                proof {
                    use_type_invariant(&*counter);
                }
                match counter.add(delta) {
                    Err(error) => Err(error),
                    Ok(Phase::Active) => Ok(()),
                    Ok(Phase::Idle) => {
                        self.shared.1.notify_all();
                        Ok(())
                    },
                }
            },
        }
    }

    /// Reports one unit of work as finished: the same as `add(-1)`, with the
    /// same errors, of which an overflow cannot happen.
    pub fn done(&self) -> (outcome: Result<(), WaitGroupError>)
        ensures
            match outcome {
                Ok(_) => true,
                Err(WaitGroupError::NegativeCounter) => true,
                Err(WaitGroupError::Overflow) => false,
                Err(WaitGroupError::Poisoned) => true,
            },
    {
        self.add(-1)
    }

    /// Blocks until the counter is zero; returns at once if it already is.
    ///
    /// The thread sleeps on the condition variable for as long as
    /// [`Counter::is_active`] holds of the counter under the lock. What it
    /// returns then is decided by [`Counter::phase`] on the counter that it
    /// finds: a counter that has failed gives [`WaitGroupError::Poisoned`],
    /// never `Ok`.
    pub fn wait(&self) -> (outcome: Result<(), WaitGroupError>)
        ensures
            match outcome {
                Ok(_) => true,
                Err(WaitGroupError::NegativeCounter) => false,
                Err(WaitGroupError::Overflow) => false,
                Err(WaitGroupError::Poisoned) => true,
            },
    {
        match self.shared.0.lock() {
            Err(_) => Err(WaitGroupError::Poisoned),
            Ok(guard) => match wait_while_active(&self.shared.1, guard) {
                Err(_) => Err(WaitGroupError::Poisoned),
                Ok(mut woken) => {
                    let counter = woken.deref_mut();
                    proof {
                        use_type_invariant(&*counter);
                    }
                    match counter.phase() {
                        Err(error) => Err(error),
                        Ok(_) => Ok(()),
                    }
                },
            },
        }
    }
}

impl Clone for WaitGroup {
    /// Another handle to the same wait group: the same lock, the same counter
    /// behind it and the same condition variable.
    fn clone(&self) -> (group: Self)
        ensures
            group == *self,
    {
        WaitGroup { shared: self.shared.clone() }
    }
}

impl Default for WaitGroup {
    /// The same as [`WaitGroup::new`]: a wait group with nothing outstanding,
    /// whose counter starts at zero.
    fn default() -> (group: Self)
        ensures
            group.initial() == State::Counting(0),
    {
        WaitGroup::new()
    }
}

} // verus!
