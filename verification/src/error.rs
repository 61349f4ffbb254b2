//! The signals with which the engine refuses to start a session.

use vstd::prelude::*;

verus! {

/// Why a recording or a playback did not start. None of these changes the
/// state of the engine.
#[derive(Clone, Copy, Debug, PartialEq, Eq, Hash, Structural)]
pub enum SessionError {
    /// A recording was asked for while one is in progress.
    AlreadyRecording,
    /// The other kind of session, or a playback, is in progress.
    Busy,
    /// The listener could not be set up.
    ListenerUnavailable,
    /// There is no recorded macro to play.
    NoMacroRecorded,
    /// The speed is zero.
    InvalidSpeed,
}

} // verus!
