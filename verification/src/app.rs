//! The application: a counter, an exit flag, and what events do to them.

use crate::error::EventError;
use crate::error::TransitionError;
use crate::event::InputEvent;
use crate::event::KeyCode;
use crate::event::KeyEvent;
use crate::event::KeyEventKind;
use crate::frame::drawn_panel;
use crate::frame::Area;
use crate::frame::Frame;
use crate::panel::Panel;
use crate::panel::PanelView;
use crate::state::AppState;
use crate::state::COUNTER_MAX;
use vstd::prelude::*;

verus! {

/// The application's state. The counter never leaves `0..=COUNTER_MAX`.
#[derive(Debug)]
pub struct App {
    counter: u8,
    exit: bool,
}

impl View for App {
    type V = AppState;

    closed spec fn view(&self) -> AppState {
        AppState { counter: self.counter as nat, exit_requested: self.exit }
    }
}

/// What a run over a list of events showed and refused.
#[derive(Debug)]
pub struct Transcript {
    /// The frame that was on screen while each handled event was awaited.
    pub frames: Vec<Frame>,
    /// The transitions that were refused, in the order of their events.
    pub rejected: Vec<EventError>,
}

/// The frame that shows `state` over `area`.
pub open spec fn rendered(state: AppState, area: Area) -> ratatui::buffer::Buffer {
    drawn_panel(PanelView::showing(state.counter), area)
}

impl Default for App {
    /// The application as it starts: the counter at zero, no exit requested.
    fn default() -> (app: App)
        ensures
            app@ == AppState::initial(),
            app@.in_range(),
    {
        App { counter: 0, exit: false }
    }
}

impl App {
    #[verifier::type_invariant]
    spec fn counter_in_range(self) -> bool {
        self.counter <= COUNTER_MAX
    }

    /// The counter, which is never above `COUNTER_MAX`.
    pub fn counter(&self) -> (value: u8)
        ensures
            value == self@.counter,
            self@.in_range(),
    {
        proof {
            use_type_invariant(self);
        }
        self.counter
    }

    /// Whether the user has asked to leave.
    pub fn exit_requested(&self) -> (requested: bool)
        ensures
            requested == self@.exit_requested,
    {
        self.exit
    }

    /// Asks to leave. The counter stays as it is.
    pub fn exit(&mut self)
        ensures
            final(self)@ == old(self)@.quit(),
            final(self)@.in_range(),
    {
        proof {
            use_type_invariant(&*self);
        }
        self.exit = true;
    }

    /// Lowers the counter by one. At zero the counter stays and the call
    /// fails with `CounterUnderflow`.
    pub fn decrement_counter(&mut self) -> (result: Result<(), TransitionError>)
        ensures
            match old(self)@.decremented() {
                Ok(next) => result is Ok && final(self)@ == next,
                Err(error) => {
                    result == Err::<(), TransitionError>(error) && final(self)@ == old(self)@
                },
            },
            final(self)@.in_range(),
    {
        proof {
            use_type_invariant(&*self);
        }
        if self.counter == 0 {
            return Err(TransitionError::CounterUnderflow);
        }
        self.counter = self.counter - 1;
        Ok(())
    }

    /// Raises the counter by one. At `COUNTER_MAX` the counter stays and the
    /// call fails with `CounterOverflow`.
    pub fn increment_counter(&mut self) -> (result: Result<(), TransitionError>)
        ensures
            match old(self)@.incremented() {
                Ok(next) => result is Ok && final(self)@ == next,
                Err(error) => {
                    result == Err::<(), TransitionError>(error) && final(self)@ == old(self)@
                },
            },
            final(self)@.in_range(),
    {
        proof {
            use_type_invariant(&*self);
        }
        if self.counter >= COUNTER_MAX {
            return Err(TransitionError::CounterOverflow);
        }
        self.counter = self.counter + 1;
        Ok(())
    }

    /// Does what the key of `key_event` asks for, whatever the kind of the
    /// event. A refused transition leaves the state as it was.
    pub fn handle_key_event(&mut self, key_event: KeyEvent) -> (result: Result<(), TransitionError>)
        ensures
            match old(self)@.on_key(key_event) {
                Ok(next) => result is Ok && final(self)@ == next,
                Err(error) => {
                    result == Err::<(), TransitionError>(error) && final(self)@ == old(self)@
                },
            },
            final(self)@.in_range(),
    {
        proof {
            use_type_invariant(&*self);
        }
        match key_event.code {
            KeyCode::Char('q') | KeyCode::Char('Q') => {
                self.exit();
                Ok(())
            },
            KeyCode::Left => self.decrement_counter(),
            KeyCode::Right => self.increment_counter(),
            _ => Ok(()),
        }
    }

    /// Handles one event. Only a key press is acted upon; a refused
    /// transition is reported together with the key event that asked for it,
    /// and leaves the state as it was.
    pub fn handle_event(&mut self, event: InputEvent) -> (result: Result<(), EventError>)
        ensures
            match old(self)@.on_event(event) {
                Ok(next) => result is Ok && final(self)@ == next,
                Err(error) => result == Err::<(), EventError>(error) && final(self)@ == old(self)@,
            },
            final(self)@ == old(self)@.after(event),
            final(self)@.in_range(),
    {
        proof {
            use_type_invariant(&*self);
        }
        match event {
            InputEvent::Key(key_event) => match key_event.kind {
                KeyEventKind::Press => match self.handle_key_event(key_event) {
                    Ok(()) => Ok(()),
                    Err(cause) => Err(EventError { key_event, cause }),
                },
                _ => Ok(()),
            },
            _ => Ok(()),
        }
    }

    /// Draws the panel for the current state over `area`. The frame depends
    /// on the counter and the area, and on nothing else.
    pub fn render(&self, area: Area) -> (frame: Frame)
        ensures
            frame@ == rendered(self@, area),
    {
        let panel = Panel::showing(self.counter);
        Frame::draw(&panel, area)
    }

    /// Runs the application over `events`, as the interactive loop would:
    /// while no exit is requested and an event is left, it draws the current
    /// state over `area` and then handles the next event. A refused
    /// transition does not end the run: it is recorded, and the state stays
    /// as it was.
    pub fn run(&mut self, events: &[InputEvent], area: Area) -> (transcript: Transcript)
        ensures
            final(self)@ == old(self)@.after_first(events@, old(self)@.handled(events@)),
            final(self)@.in_range(),
            transcript.rejected@ == old(self)@.rejected_in_first(
                events@,
                old(self)@.handled(events@),
            ),
            transcript.frames@.len() == old(self)@.handled(events@),
            forall|i: int|
                0 <= i < transcript.frames@.len() ==> (#[trigger] transcript.frames@[i])@
                    == rendered(old(self)@.after_first(events@, i as nat), area),
    {
        let ghost start = self@;
        let mut frames: Vec<Frame> = Vec::new();
        let mut rejected: Vec<EventError> = Vec::new();
        let mut done: usize = 0;
        while done < events.len() && !self.exit
            invariant
                done <= events.len(),
                self@ == start.after_first(events@, done as nat),
                start.handled(events@) == start.stops_from(events@, done as nat),
                rejected@ == start.rejected_in_first(events@, done as nat),
                frames@.len() == done,
                forall|i: int|
                    0 <= i < frames@.len() ==> (#[trigger] frames@[i])@ == rendered(
                        start.after_first(events@, i as nat),
                        area,
                    ),
            decreases events.len() - done,
        {
            frames.push(self.render(area));
            match self.handle_event(events[done]) {
                Ok(()) => {},
                Err(error) => {
                    rejected.push(error);
                },
            }
            done = done + 1;
        }
        proof {
            use_type_invariant(&*self);
        }
        Transcript { frames, rejected }
    }
}

} // verus!
