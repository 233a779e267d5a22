//! The render loop's decisions: whether the loop goes on after the events of
//! a frame.
use vstd::prelude::*;

verus! {

/// A key, as far as the loop cares.
#[derive(Clone, Copy, Debug, PartialEq, Eq, Structural)]
pub enum Key {
    Escape,
    Other,
}

/// An input event from the window.
#[derive(Clone, Copy, Debug, PartialEq, Eq, Structural)]
pub enum Input {
    Closed,
    KeyReleased(Key),
    Other,
}

/// State of the render loop. `Terminated` is never left.
#[derive(Clone, Copy, Debug, PartialEq, Eq, Structural)]
pub enum RunState {
    Running,
    Terminated,
}

/// The event asks the loop to end: the window was closed or escape was
/// released.
pub open spec fn ends_run(e: Input) -> bool {
    e == Input::Closed || e == Input::KeyReleased(Key::Escape)
}

/// The state after one event.
pub fn next_state(s: RunState, e: Input) -> (r: RunState)
    ensures
        r == (if s == RunState::Terminated || ends_run(e) {
            RunState::Terminated
        } else {
            RunState::Running
        }),
{
    match (s, e) {
        (RunState::Terminated, _) => RunState::Terminated,
        (_, Input::Closed) => RunState::Terminated,
        (_, Input::KeyReleased(Key::Escape)) => RunState::Terminated,
        _ => RunState::Running,
    }
}

/// The state after all pending events of a frame, taken in order: the loop
/// ends exactly when it had ended already or one of them asks it to.
pub fn drain(s: RunState, events: &Vec<Input>) -> (r: RunState)
    ensures
        (r == RunState::Terminated) == (s == RunState::Terminated || exists|i: int|
            0 <= i < events@.len() && ends_run(#[trigger] events@[i])),
{
    let mut state = s;
    let mut k: usize = 0;
    while k < events.len()
        invariant
            k <= events@.len(),
            (state == RunState::Terminated) == (s == RunState::Terminated || exists|i: int|
                0 <= i < k && ends_run(#[trigger] events@[i])),
        decreases events@.len() - k,
    {
        state = next_state(state, events[k]);
        proof {
            if ends_run(events@[k as int]) {
                assert(0 <= k < k + 1 && ends_run(events@[k as int]));
            }
        }
        k = k + 1;
    }
    state
}

} // verus!
