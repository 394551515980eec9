//! The application as a state machine over mathematical values.
//!
//! [`AppState`] is what an [`crate::app::App`] stands for, and the functions
//! here say what each transition does to it. They are the vocabulary of the
//! contracts in [`crate::app`] and of the laws in [`crate::laws`].

use crate::error::EventError;
use crate::error::TransitionError;
use crate::event::InputEvent;
use crate::event::KeyCode;
use crate::event::KeyEvent;
use vstd::prelude::*;

verus! {

/// Largest value the counter may hold.
pub const COUNTER_MAX: u8 = 2;

/// The state of the application.
pub struct AppState {
    /// The counter.
    pub counter: nat,
    /// Whether the user has asked to leave.
    pub exit_requested: bool,
}

impl AppState {
    /// The state in which the application starts.
    pub open spec fn initial() -> AppState {
        AppState { counter: 0, exit_requested: false }
    }

    /// Whether the counter is within its range.
    pub open spec fn in_range(self) -> bool {
        self.counter <= COUNTER_MAX
    }

    /// The state with the exit flag set.
    pub open spec fn quit(self) -> AppState {
        AppState { exit_requested: true, ..self }
    }

    /// The state with the counter one higher, unless that leaves the range.
    pub open spec fn incremented(self) -> Result<AppState, TransitionError> {
        if self.counter + 1 > COUNTER_MAX {
            Err(TransitionError::CounterOverflow)
        } else {
            Ok(AppState { counter: self.counter + 1, ..self })
        }
    }

    /// The state with the counter one lower, unless it is zero already.
    pub open spec fn decremented(self) -> Result<AppState, TransitionError> {
        if self.counter == 0 {
            Err(TransitionError::CounterUnderflow)
        } else {
            Ok(AppState { counter: (self.counter - 1) as nat, ..self })
        }
    }

    /// What a key does: `q` or `Q` quits, the left arrow decrements, the
    /// right arrow increments, and every other key leaves the state as it is.
    pub open spec fn on_key(self, key_event: KeyEvent) -> Result<AppState, TransitionError> {
        if key_event.code.is_quit() {
            Ok(self.quit())
        } else if key_event.code == KeyCode::Left {
            self.decremented()
        } else if key_event.code == KeyCode::Right {
            self.incremented()
        } else {
            Ok(self)
        }
    }

    /// What an event does: a key press does what its key does, and an error
    /// is reported together with that key event; nothing else has an effect.
    pub open spec fn on_event(self, event: InputEvent) -> Result<AppState, EventError> {
        match event {
            InputEvent::Key(key_event) if key_event.is_press() => match self.on_key(key_event) {
                Ok(next) => Ok(next),
                Err(cause) => Err(EventError { key_event, cause }),
            },
            _ => Ok(self),
        }
    }

    /// The state once `event` has been handled: a refused transition leaves
    /// the state as it was.
    pub open spec fn after(self, event: InputEvent) -> AppState {
        match self.on_event(event) {
            Ok(next) => next,
            Err(_) => self,
        }
    }

    /// The state once the first `n` of `events` have been handled in turn.
    pub open spec fn after_first(self, events: Seq<InputEvent>, n: nat) -> AppState
        decreases n,
    {
        if n == 0 {
            self
        } else {
            self.after_first(events, (n - 1) as nat).after(events[n - 1])
        }
    }

    /// The errors that handling the first `n` of `events` reports, in order.
    pub open spec fn rejected_in_first(self, events: Seq<InputEvent>, n: nat) -> Seq<EventError>
        decreases n,
    {
        if n == 0 {
            Seq::empty()
        } else {
            let earlier = self.rejected_in_first(events, (n - 1) as nat);
            match self.after_first(events, (n - 1) as nat).on_event(events[n - 1]) {
                Ok(_) => earlier,
                Err(error) => earlier.push(error),
            }
        }
    }

    /// Where the loop stands once it has handled `done` events: it stops at
    /// the first point at which the exit flag is set or no event is left.
    pub open spec fn stops_from(self, events: Seq<InputEvent>, done: nat) -> nat
        decreases events.len() - done,
    {
        if done >= events.len() || self.after_first(events, done).exit_requested {
            done
        } else {
            self.stops_from(events, done + 1)
        }
    }

    /// How many of `events` the loop handles before it stops.
    pub open spec fn handled(self, events: Seq<InputEvent>) -> nat {
        self.stops_from(events, 0)
    }
}

} // verus!
