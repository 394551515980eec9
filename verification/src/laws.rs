//! What holds of the state machine and of the frames, whatever the inputs.

use crate::app::rendered;
use crate::error::TransitionError;
use crate::event::InputEvent;
use crate::event::KeyCode;
use crate::event::KeyEvent;
use crate::frame::Area;
use crate::frame::Frame;
use crate::panel::body;
use crate::panel::legend;
use crate::state::AppState;
use crate::state::COUNTER_MAX;
use vstd::prelude::*;

verus! {

/// Drawing is a function of the counter and the area: two frames drawn for
/// states with the same counter over the same area are the same frame,
/// whenever and however often they are drawn.
pub proof fn lemma_frames_agree(
    first: Frame,
    second: Frame,
    first_state: AppState,
    second_state: AppState,
    area: Area,
)
    requires
        first@ == rendered(first_state, area),
        second@ == rendered(second_state, area),
        first_state.counter == second_state.counter,
    ensures
        first@ == second@,
{
}

/// In the legend each key is set in another style than the command it
/// stands behind, and in the body the number in another style than its
/// label.
pub proof fn lemma_keys_and_number_stand_out(counter: nat)
    ensures
        legend().len() == 6,
        forall|i: int| 0 <= i < 3 ==> (#[trigger] legend()[2 * i]).style != legend()[2 * i + 1].style,
        body(counter).len() == 2,
        body(counter)[0].style != body(counter)[1].style,
{
}

/// Handling an event never takes the counter out of its range.
pub proof fn lemma_event_keeps_range(state: AppState, event: InputEvent)
    requires
        state.in_range(),
    ensures
        state.after(event).in_range(),
        state.on_event(event) matches Ok(next) ==> next.in_range(),
{
}

/// Every state that the application can reach has its counter in range:
/// whatever the events, and however many of them have been handled since the
/// start, the counter is between zero and `COUNTER_MAX`.
pub proof fn lemma_reachable_states_in_range(events: Seq<InputEvent>, n: nat)
    requires
        n <= events.len(),
    ensures
        0 <= AppState::initial().after_first(events, n).counter <= COUNTER_MAX,
    decreases n,
{
    if n > 0 {
        let earlier = (n - 1) as nat;
        lemma_reachable_states_in_range(events, earlier);
        lemma_event_keeps_range(AppState::initial().after_first(events, earlier), events[n - 1]);
    }
}

/// An increment succeeds exactly below the maximum, and a decrement exactly
/// above zero; a refused one names its reason.
pub proof fn lemma_refusals(state: AppState)
    requires
        state.in_range(),
    ensures
        state.incremented() is Ok <==> state.counter < COUNTER_MAX,
        state.incremented() is Err ==> state.incremented() == Err::<AppState, TransitionError>(
            TransitionError::CounterOverflow,
        ),
        state.decremented() is Ok <==> state.counter > 0,
        state.decremented() is Err ==> state.decremented() == Err::<AppState, TransitionError>(
            TransitionError::CounterUnderflow,
        ),
{
}

/// An increment that succeeds is undone by a decrement.
pub proof fn lemma_increment_then_decrement(state: AppState)
    requires
        state.counter < COUNTER_MAX,
    ensures
        state.incremented() matches Ok(raised) && raised.decremented() == Ok::<
            AppState,
            TransitionError,
        >(state),
{
}

/// A decrement that succeeds is undone by an increment.
pub proof fn lemma_decrement_then_increment(state: AppState)
    requires
        state.in_range(),
        state.counter > 0,
    ensures
        state.decremented() matches Ok(lowered) && lowered.incremented() == Ok::<
            AppState,
            TransitionError,
        >(state),
{
}

/// The quit key sets the exit flag and changes nothing else.
pub proof fn lemma_quit_sets_only_the_flag(state: AppState, key_event: KeyEvent)
    requires
        key_event.code.is_quit(),
    ensures
        state.on_key(key_event) == Ok::<AppState, TransitionError>(
            AppState { exit_requested: true, counter: state.counter },
        ),
{
}

/// A key other than quit, left and right leaves the whole state unchanged.
pub proof fn lemma_other_keys_change_nothing(state: AppState, key_event: KeyEvent)
    requires
        !key_event.code.is_quit(),
        key_event.code != KeyCode::Left,
        key_event.code != KeyCode::Right,
    ensures
        state.on_key(key_event) == Ok::<AppState, TransitionError>(state),
{
}

/// An event that is not a key press leaves the whole state unchanged and
/// reports no error.
pub proof fn lemma_only_presses_act(state: AppState, event: InputEvent)
    requires
        !(event matches InputEvent::Key(key_event) && key_event.is_press()),
    ensures
        state.on_event(event) == Ok::<AppState, crate::error::EventError>(state),
        state.after(event) == state,
{
}

/// Once set, the exit flag stays set: no key and no event clears it.
pub proof fn lemma_exit_flag_stays(state: AppState, key_event: KeyEvent, event: InputEvent)
    requires
        state.exit_requested,
    ensures
        state.on_key(key_event) matches Ok(next) ==> next.exit_requested,
        state.after(event).exit_requested,
{
}

/// The loop handles events up to the first point where the exit flag is set,
/// and no further: before that point the flag is clear, and at it the flag is
/// set or the events have run out.
pub proof fn lemma_loop_stops_at_first_exit(state: AppState, events: Seq<InputEvent>)
    ensures
        state.handled(events) <= events.len(),
        forall|i: nat| i < state.handled(events) ==> !(#[trigger] state.after_first(events, i)).exit_requested,
        state.handled(events) == events.len() || state.after_first(
            events,
            state.handled(events),
        ).exit_requested,
{
    lemma_stops_from(state, events, 0);
}

/// The same, from any point that the loop has reached.
proof fn lemma_stops_from(state: AppState, events: Seq<InputEvent>, done: nat)
    requires
        done <= events.len(),
    ensures
        done <= state.stops_from(events, done) <= events.len(),
        forall|i: nat|
            done <= i < state.stops_from(events, done) ==> !(#[trigger] state.after_first(
                events,
                i,
            )).exit_requested,
        state.stops_from(events, done) == events.len() || state.after_first(
            events,
            state.stops_from(events, done),
        ).exit_requested,
    decreases events.len() - done,
{
    if !(done >= events.len() || state.after_first(events, done).exit_requested) {
        lemma_stops_from(state, events, done + 1);
    }
}

} // verus!
