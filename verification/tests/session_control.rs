use rusty_vban::session::{
    pause_step, play_step, poll_step, should_run, EmitterOptions, ReceptorOptions, SessionAction,
    SessionState,
};

#[test]
fn options_default_to_no_retry() {
    assert!(!EmitterOptions::default().retry);
    assert!(!ReceptorOptions::default().retry);
}

#[test]
fn only_the_default_selector_follows_the_default_device() {
    // bound to the default device: run only while it stays the default
    assert!(should_run(b"default", true));
    assert!(!should_run(b"default", false));
    // bound to a named device: keep running either way
    assert!(should_run(b"usb-card", true));
    assert!(should_run(b"usb-card", false));
}

#[test]
fn play_starts_the_stream_once() {
    assert_eq!(
        play_step(SessionState::Idle),
        (SessionState::Playing, SessionAction::StartStream)
    );
    assert_eq!(
        play_step(SessionState::Paused),
        (SessionState::Playing, SessionAction::StartStream)
    );
    assert_eq!(
        play_step(SessionState::Playing),
        (SessionState::Playing, SessionAction::KeepGoing)
    );
}

#[test]
fn pause_stops_only_a_playing_stream() {
    assert_eq!(
        pause_step(SessionState::Playing),
        (SessionState::Paused, SessionAction::StopStream)
    );
    assert_eq!(
        pause_step(SessionState::Paused),
        (SessionState::Paused, SessionAction::KeepGoing)
    );
    assert_eq!(
        pause_step(SessionState::Idle),
        (SessionState::Idle, SessionAction::KeepGoing)
    );
}

#[test]
fn poll_keeps_running_while_the_device_is_right() {
    assert_eq!(
        poll_step(SessionState::Playing, true, false),
        (SessionState::Playing, SessionAction::KeepGoing)
    );
    assert_eq!(
        poll_step(SessionState::Playing, true, true),
        (SessionState::Playing, SessionAction::KeepGoing)
    );
}

#[test]
fn poll_rebuilds_with_retry_and_exits_without() {
    assert_eq!(
        poll_step(SessionState::Playing, false, true),
        (SessionState::Playing, SessionAction::Rebuild)
    );
    assert_eq!(
        poll_step(SessionState::Playing, false, false),
        (SessionState::Idle, SessionAction::Exit)
    );
}

#[test]
fn poll_ignores_sessions_that_are_not_playing() {
    assert_eq!(
        poll_step(SessionState::Idle, false, true),
        (SessionState::Idle, SessionAction::KeepGoing)
    );
    assert_eq!(
        poll_step(SessionState::Paused, false, true),
        (SessionState::Paused, SessionAction::KeepGoing)
    );
}
