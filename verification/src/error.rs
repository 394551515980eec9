//! Why a transition was refused.

use crate::event::KeyEvent;
use vstd::prelude::*;

verus! {

/// A transition that would have taken the counter out of its range.
#[derive(Clone, Copy, Debug, PartialEq, Eq, Structural)]
pub enum TransitionError {
    /// An increment would have taken the counter above its maximum.
    CounterOverflow,
    /// A decrement would have taken the counter below zero.
    CounterUnderflow,
}

/// A refused transition, with the key event that asked for it.
#[derive(Clone, Copy, Debug, PartialEq, Eq, Structural)]
pub struct EventError {
    /// The key event that was being handled.
    pub key_event: KeyEvent,
    /// Why the transition was refused.
    pub cause: TransitionError,
}

impl TransitionError {
    /// The words for this error.
    pub open spec fn message_text(self) -> Seq<char> {
        match self {
            TransitionError::CounterOverflow => "counter overflow"@,
            TransitionError::CounterUnderflow => "counter underflow"@,
        }
    }

    /// A short description of the error, for a person to read.
    pub fn message(&self) -> (text: &'static str)
        ensures
            text@ == self.message_text(),
    {
        match self {
            TransitionError::CounterOverflow => "counter overflow",
            TransitionError::CounterUnderflow => "counter underflow",
        }
    }
}

} // verus!
