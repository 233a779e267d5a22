use partycle::driver::{drain, next_state, Input, Key, RunState};

#[test]
fn close_ends_the_run() {
    assert_eq!(next_state(RunState::Running, Input::Closed), RunState::Terminated);
}

#[test]
fn escape_release_ends_the_run() {
    assert_eq!(
        next_state(RunState::Running, Input::KeyReleased(Key::Escape)),
        RunState::Terminated
    );
}

#[test]
fn other_events_keep_running() {
    assert_eq!(next_state(RunState::Running, Input::Other), RunState::Running);
    assert_eq!(
        next_state(RunState::Running, Input::KeyReleased(Key::Other)),
        RunState::Running
    );
}

#[test]
fn terminated_is_never_left() {
    for e in [Input::Closed, Input::Other, Input::KeyReleased(Key::Other)] {
        assert_eq!(next_state(RunState::Terminated, e), RunState::Terminated);
    }
    assert_eq!(drain(RunState::Terminated, &vec![]), RunState::Terminated);
}

#[test]
fn drain_looks_at_every_event() {
    assert_eq!(drain(RunState::Running, &vec![]), RunState::Running);
    let quiet = vec![Input::Other, Input::KeyReleased(Key::Other)];
    assert_eq!(drain(RunState::Running, &quiet), RunState::Running);
    let late = vec![Input::Other, Input::Other, Input::KeyReleased(Key::Escape)];
    assert_eq!(drain(RunState::Running, &late), RunState::Terminated);
}
