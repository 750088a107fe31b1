//! The session control state machine: a session is idle, playing or
//! paused; playing is entered by starting the stream, left by stopping
//! it, and while playing a periodic poll decides whether to keep
//! running, rebuild the stream, or exit. The caller performs each
//! returned action on the audio device and the sockets; the decisions
//! themselves are pure and stand here.

use vstd::prelude::*;

use crate::config::spec_default_name;

verus! {

/// What a session is doing.
#[derive(Clone, Copy, Debug, PartialEq, Eq, Structural)]
pub enum SessionState {
    Idle,
    Playing,
    Paused,
}

/// What the caller must do next on the underlying resources.
#[derive(Clone, Copy, Debug, PartialEq, Eq, Structural)]
pub enum SessionAction {
    /// Start the audio stream (and, for a receptor, the receive thread).
    StartStream,
    /// Stop the audio stream (and, for a receptor, join the receive
    /// thread, reclaiming the producer handle).
    StopStream,
    /// Tear the stream, socket and buffer down and rebuild them from the
    /// immutable configuration, then start again.
    Rebuild,
    /// Leave the run loop.
    Exit,
    /// Nothing: keep going.
    KeepGoing,
}

/// Options for the emitter's run loop.
pub struct EmitterOptions {
    pub retry: bool,
}

impl EmitterOptions {
    /// Retry is off unless asked for.
    pub fn default() -> (r: EmitterOptions)
        ensures
            r.retry == false,
    {
        EmitterOptions { retry: false }
    }
}

/// Options for the receptor's run loop.
pub struct ReceptorOptions {
    pub retry: bool,
}

impl ReceptorOptions {
    /// Retry is off unless asked for.
    pub fn default() -> (r: ReceptorOptions)
        ensures
            r.retry == false,
    {
        ReceptorOptions { retry: false }
    }
}

/// Whether a playing session should keep running: only a session bound
/// to the `"default"` device selector follows the operating system's
/// default device, and stops when its device is no longer that default.
pub fn should_run(device_name: &[u8], is_default_device: bool) -> (r: bool)
    ensures
        r == !(device_name@ == spec_default_name() && !is_default_device),
{
    let def = crate::config::default_name();
    if crate::util::bytes_eq(device_name, def.as_slice()) && !is_default_device {
        return false;
    }
    true
}

/// The play transition: an idle or paused session starts its stream and
/// plays; playing again changes nothing.
pub fn play_step(state: SessionState) -> (r: (SessionState, SessionAction))
    ensures
        state != SessionState::Playing ==> r == (SessionState::Playing, SessionAction::StartStream),
        state == SessionState::Playing ==> r == (SessionState::Playing, SessionAction::KeepGoing),
{
    match state {
        SessionState::Playing => (SessionState::Playing, SessionAction::KeepGoing),
        _ => (SessionState::Playing, SessionAction::StartStream),
    }
}

/// The pause transition: a playing session stops its stream and keeps
/// its buffer; pausing anything else changes nothing.
pub fn pause_step(state: SessionState) -> (r: (SessionState, SessionAction))
    ensures
        state == SessionState::Playing ==> r == (SessionState::Paused, SessionAction::StopStream),
        state != SessionState::Playing ==> r == (state, SessionAction::KeepGoing),
{
    match state {
        SessionState::Playing => (SessionState::Paused, SessionAction::StopStream),
        _ => (state, SessionAction::KeepGoing),
    }
}

/// One tick of the run loop's periodic poll. While the device is still
/// the right one the session keeps playing; when it is not, a session
/// with retry rebuilds and plays on, and one without stops and exits.
pub fn poll_step(state: SessionState, device_ok: bool, retry: bool) -> (r: (
    SessionState,
    SessionAction,
))
    ensures
        state != SessionState::Playing ==> r == (state, SessionAction::KeepGoing),
        state == SessionState::Playing && device_ok ==> r == (
            SessionState::Playing,
            SessionAction::KeepGoing,
        ),
        state == SessionState::Playing && !device_ok && retry ==> r == (
            SessionState::Playing,
            SessionAction::Rebuild,
        ),
        state == SessionState::Playing && !device_ok && !retry ==> r == (
            SessionState::Idle,
            SessionAction::Exit,
        ),
{
    match state {
        SessionState::Playing => {
            if device_ok {
                (SessionState::Playing, SessionAction::KeepGoing)
            } else if retry {
                (SessionState::Playing, SessionAction::Rebuild)
            } else {
                (SessionState::Idle, SessionAction::Exit)
            }
        },
        _ => (state, SessionAction::KeepGoing),
    }
}

} // verus!
