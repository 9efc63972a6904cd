//! The ways in which a wait group refuses an operation.

use vstd::prelude::*;

verus! {

/// Why a wait group refused an operation.
///
/// None of them is transient: each tells of a mistake in the program that
/// uses the wait group, and the caller is expected to stop on it.
#[derive(Clone, Copy, PartialEq, Eq, Debug, Structural)]
pub enum WaitGroupError {
    /// More completions were signalled than units of work were registered.
    NegativeCounter,
    /// More units of work were registered than the counter can hold.
    Overflow,
    /// The wait group is of no use any more: an earlier operation on it has
    /// failed, or a thread panicked while it held the group's lock.
    Poisoned,
}

impl WaitGroupError {
    /// The text of [`WaitGroupError::message`].
    pub open spec fn message_spec(self) -> Seq<char> {
        match self {
            WaitGroupError::NegativeCounter => "negative WaitGroup counter"@,
            WaitGroupError::Overflow => "WaitGroup counter overflow"@,
            WaitGroupError::Poisoned => "poisoned WaitGroup"@,
        }
    }

    /// A short diagnostic that names the cause.
    pub fn message(&self) -> (text: &'static str)
        ensures
            text@ == self.message_spec(),
    {
        match self {
            WaitGroupError::NegativeCounter => "negative WaitGroup counter",
            WaitGroupError::Overflow => "WaitGroup counter overflow",
            WaitGroupError::Poisoned => "poisoned WaitGroup",
        }
    }
}

} // verus!
