//! The session controller: the one place that knows whether a recording or
//! a playback is in progress, and that keeps the last recorded macro.
//!
//! At any time the controller is idle, recording or playing; it is never
//! two of these. A session lives inside the controller while it runs, so a
//! timeline is either being written by the recording that owns it or frozen
//! and read, never both.

use vstd::prelude::*;
use crate::error::SessionError;
use crate::event::{command_of, is_control_event, InputEvent, KeyCode, TimedEvent};
use crate::playback::{
    dispatched,
    lemma_playback_keeps_order,
    mapped,
    PlaybackSession,
    PlaybackState,
    PlaybackStep,
};
use crate::recording::{
    lemma_recording_keeps_arrival_order,
    RecordingSession,
    RecordingState,
    RECORDING_POLL_MS,
};
use crate::timeline::{well_formed, FrozenTimeline};

verus! {

/// The two flags that a shell may ask for.
#[derive(Clone, Copy, Debug, PartialEq, Eq, Hash, Structural)]
pub struct SessionState {
    pub is_recording: bool,
    pub is_playing: bool,
}

/// What the caller of a recording has to do next.
#[derive(Clone, Copy, Debug, PartialEq, Eq, Hash, Structural)]
pub enum RecordingPoll {
    /// Sleep for so many milliseconds, then ask again.
    Sleep(u64),
    /// No recording is in progress any more: take the callbacks away.
    Finished,
}

/// What the controller is busy with, as a value.
pub enum Phase {
    Idle,
    Recording(RecordingState),
    Playing(PlaybackState),
}

/// What the controller is, as a value: the last recorded macro, empty where
/// there is none, and the session in progress.
#[verifier::ext_equal]
pub struct HandlerState {
    pub stored: Seq<TimedEvent>,
    pub phase: Phase,
}

impl HandlerState {
    /// Whether a recording is in progress.
    pub open spec fn is_recording(self) -> bool {
        self.phase is Recording
    }

    /// Whether a playback is in progress.
    pub open spec fn is_playing(self) -> bool {
        self.phase is Playing
    }

    /// The stored macro is a well-formed timeline, the session in progress
    /// is well-formed, and a playback plays the stored macro.
    pub open spec fn wf(self) -> bool {
        &&& well_formed(self.stored)
        &&& match self.phase {
            Phase::Idle => true,
            Phase::Recording(recording) => recording.wf(),
            Phase::Playing(playback) => playback.wf() && playback.timeline == self.stored
                && !playback.is_over(),
        }
    }

    /// A controller that has recorded nothing and does nothing.
    pub open spec fn initial() -> HandlerState {
        HandlerState { stored: Seq::empty(), phase: Phase::Idle }
    }
}

#[derive(Debug)]
enum Session {
    Idle,
    Recording(RecordingSession),
    Playing(PlaybackSession),
}

/// The session controller.
#[derive(Debug)]
pub struct MacroHandler {
    stored_actions: FrozenTimeline,
    session: Session,
}

impl View for MacroHandler {
    type V = HandlerState;

    closed spec fn view(&self) -> HandlerState {
        HandlerState {
            stored: self.stored_actions@,
            phase: match self.session {
                Session::Idle => Phase::Idle,
                Session::Recording(recording) => Phase::Recording(recording@),
                Session::Playing(playback) => Phase::Playing(playback@),
            },
        }
    }
}

impl MacroHandler {
    /// The controller, as a value, is well-formed. This holds of every
    /// controller.
    #[verifier::type_invariant]
    pub open spec fn wf(&self) -> bool {
        self@.wf()
    }

    /// A controller that has recorded nothing and does nothing.
    pub fn new() -> (handler: MacroHandler)
        ensures
            handler@ == HandlerState::initial(),
            handler.wf(),
    {
        MacroHandler { stored_actions: FrozenTimeline::empty(), session: Session::Idle }
    }

    /// The two flags. They are never both set.
    pub fn status(&self) -> (state: SessionState)
        ensures
            state.is_recording == self@.is_recording(),
            state.is_playing == self@.is_playing(),
            !(state.is_recording && state.is_playing),
    {
        match &self.session {
            Session::Idle => SessionState { is_recording: false, is_playing: false },
            Session::Recording(_) => SessionState { is_recording: true, is_playing: false },
            Session::Playing(_) => SessionState { is_recording: false, is_playing: true },
        }
    }

    /// The last recorded macro; empty where none was recorded. A recording
    /// in progress does not show here before it is over.
    pub fn recorded_macro(&self) -> (stored: &FrozenTimeline)
        ensures
            stored@ == self@.stored,
    {
        &self.stored_actions
    }

    /// Starts a recording at the reading `now_ms`, with an empty timeline.
    /// `listener_available` says whether the listener could be set up.
    ///
    /// A recording in progress goes on untouched, and so does a playback.
    pub fn start_recording(&mut self, listener_available: bool, now_ms: u64) -> (started: Result<
        (),
        SessionError,
    >)
        ensures
            final(self).wf(),
            old(self)@.is_recording() ==> started == Err::<(), SessionError>(
                SessionError::AlreadyRecording,
            ),
            old(self)@.is_playing() ==> started == Err::<(), SessionError>(SessionError::Busy),
            old(self)@.phase is Idle && !listener_available ==> started == Err::<
                (),
                SessionError,
            >(SessionError::ListenerUnavailable),
            old(self)@.phase is Idle && listener_available ==> started == Ok::<(), SessionError>(
                (),
            ),
            started is Err ==> final(self)@ == old(self)@,
            started is Ok ==> final(self)@ == (HandlerState {
                stored: old(self)@.stored,
                phase: Phase::Recording(RecordingState::started(now_ms)),
            }),
    {
        proof {
            use_type_invariant(&*self);
        }
        match &self.session {
            Session::Recording(_) => {
                return Err(SessionError::AlreadyRecording);
            },
            Session::Playing(_) => {
                return Err(SessionError::Busy);
            },
            Session::Idle => {},
        }
        if !listener_available {
            return Err(SessionError::ListenerUnavailable);
        }
        self.session = Session::Recording(RecordingSession::start(now_ms));
        Ok(())
    }

    /// Takes one callback of the listener: `event`, which arrived at the
    /// reading `now_ms`. Returns whether the event was recorded. Outside a
    /// recording nothing is.
    pub fn record_event(&mut self, event: InputEvent, now_ms: u64) -> (recorded: bool)
        ensures
            final(self).wf(),
            match old(self)@.phase {
                Phase::Recording(recording) => {
                    &&& recorded == !is_control_event(event)
                    &&& final(self)@ == (HandlerState {
                        stored: old(self)@.stored,
                        phase: Phase::Recording(recording.capture(event, now_ms)),
                    })
                },
                _ => !recorded && final(self)@ == old(self)@,
            },
    {
        proof {
            use_type_invariant(&*self);
        }
        // The session leaves the controller while it changes: what stays
        // behind is a controller at every moment.
        let mut session = Session::Idle;
        core::mem::swap(&mut self.session, &mut session);
        match session {
            Session::Recording(mut recording) => {
                let recorded = recording.capture(event, now_ms);
                self.session = Session::Recording(recording);
                recorded
            },
            other => {
                self.session = other;
                false
            },
        }
    }

    /// Asks for the end of the recording in progress. Without one, and when
    /// asked again, nothing changes.
    pub fn stop_recording(&mut self)
        ensures
            final(self).wf(),
            match old(self)@.phase {
                Phase::Recording(recording) => final(self)@ == (HandlerState {
                    stored: old(self)@.stored,
                    phase: Phase::Recording(recording.stop()),
                }),
                _ => final(self)@ == old(self)@,
            },
    {
        proof {
            use_type_invariant(&*self);
        }
        let mut session = Session::Idle;
        core::mem::swap(&mut self.session, &mut session);
        match session {
            Session::Recording(mut recording) => {
                recording.stop();
                self.session = Session::Recording(recording);
            },
            other => {
                self.session = other;
            },
        }
    }

    /// Tells the caller of a recording what to do next, given the keys that
    /// are held down at this moment. When the end was asked for, or the stop
    /// key is held, the recording ends: its timeline is frozen and replaces
    /// the stored macro, and the controller is idle again.
    pub fn poll_recording(&mut self, pressed: &Vec<KeyCode>) -> (poll: RecordingPoll)
        ensures
            final(self).wf(),
            match old(self)@.phase {
                Phase::Recording(recording) => if recording.terminates(pressed@) {
                    &&& poll == RecordingPoll::Finished
                    &&& final(self)@ == (HandlerState {
                        stored: recording.events,
                        phase: Phase::Idle,
                    })
                } else {
                    &&& poll == RecordingPoll::Sleep(RECORDING_POLL_MS)
                    &&& final(self)@ == old(self)@
                },
                _ => poll == RecordingPoll::Finished && final(self)@ == old(self)@,
            },
    {
        proof {
            use_type_invariant(&*self);
        }
        let over = match &self.session {
            Session::Recording(recording) => recording.should_terminate(pressed),
            _ => {
                return RecordingPoll::Finished;
            },
        };
        if !over {
            return RecordingPoll::Sleep(RECORDING_POLL_MS);
        }
        let mut ended = Session::Idle;
        core::mem::swap(&mut self.session, &mut ended);
        match ended {
            Session::Recording(recording) => {
                self.stored_actions = recording.finish();
            },
            _ => {},
        }
        RecordingPoll::Finished
    }

    /// Starts a playback of the stored macro, `speed` times as fast as it
    /// was recorded. Without a macro the request is refused whatever else
    /// holds; then a speed of zero is; then a request that comes while a
    /// recording or a playback is in progress.
    pub fn play_macro(&mut self, speed: &u8) -> (started: Result<(), SessionError>)
        ensures
            final(self).wf(),
            old(self)@.stored.len() == 0 ==> started == Err::<(), SessionError>(
                SessionError::NoMacroRecorded,
            ),
            old(self)@.stored.len() > 0 && *speed == 0 ==> started == Err::<(), SessionError>(
                SessionError::InvalidSpeed,
            ),
            old(self)@.stored.len() > 0 && *speed > 0 && !(old(self)@.phase is Idle) ==> started
                == Err::<(), SessionError>(SessionError::Busy),
            old(self)@.stored.len() > 0 && *speed > 0 && old(self)@.phase is Idle ==> started
                == Ok::<(), SessionError>(()),
            started is Err ==> final(self)@ == old(self)@,
            started is Ok ==> final(self)@ == (HandlerState {
                stored: old(self)@.stored,
                phase: Phase::Playing(PlaybackState::begun(old(self)@.stored, *speed)),
            }),
    {
        proof {
            use_type_invariant(&*self);
        }
        if self.stored_actions.is_empty() {
            return Err(SessionError::NoMacroRecorded);
        }
        if *speed == 0 {
            return Err(SessionError::InvalidSpeed);
        }
        match &self.session {
            Session::Idle => {},
            _ => {
                return Err(SessionError::Busy);
            },
        }
        match PlaybackSession::play(&self.stored_actions, *speed) {
            Ok(playback) => {
                self.session = Session::Playing(playback);
                Ok(())
            },
            Err(refused) => Err(refused),
        }
    }

    /// Tells the caller of a playback, who asks at the reading `now_ms`,
    /// what to do next. When the playback is over, by its last event or by
    /// an event that cannot be reproduced, the controller is idle again.
    pub fn playback_step(&mut self, now_ms: u64) -> (step: PlaybackStep)
        ensures
            final(self).wf(),
            match old(self)@.phase {
                Phase::Playing(playback) => {
                    &&& step == playback.step(now_ms).1
                    &&& final(self)@ == (HandlerState {
                        stored: old(self)@.stored,
                        phase: if step is Finished || step is Aborted {
                            Phase::Idle
                        } else {
                            Phase::Playing(playback.step(now_ms).0)
                        },
                    })
                },
                _ => step == PlaybackStep::Finished && final(self)@ == old(self)@,
            },
            step is Finished || step is Aborted ==> !final(self)@.is_playing(),
    {
        proof {
            use_type_invariant(&*self);
        }
        let mut session = Session::Idle;
        core::mem::swap(&mut self.session, &mut session);
        match session {
            Session::Playing(mut playback) => {
                let step = playback.step(now_ms);
                if !playback.is_over() {
                    self.session = Session::Playing(playback);
                }
                step
            },
            other => {
                self.session = other;
                PlaybackStep::Finished
            },
        }
    }

    /// Ends the playback in progress after the injector has failed. Without
    /// a playback nothing changes.
    pub fn injector_failed(&mut self)
        ensures
            final(self).wf(),
            final(self)@ == (HandlerState {
                stored: old(self)@.stored,
                phase: if old(self)@.is_playing() {
                    Phase::Idle
                } else {
                    old(self)@.phase
                },
            }),
    {
        proof {
            use_type_invariant(&*self);
        }
        let playing = match &self.session {
            Session::Playing(_) => true,
            _ => false,
        };
        if playing {
            self.session = Session::Idle;
        }
    }
}

/// What was recorded is what is replayed. Take the callbacks of a whole
/// recording and a playback of its timeline, at any speed, that has come to
/// the end of the timeline: the commands that left are those of the
/// callbacks, in the order of their arrival, less the control signals.
pub proof fn lemma_replay_follows_recording(
    start_ms: u64,
    calls: Seq<(InputEvent, u64)>,
    speed: u8,
    readings: Seq<u64>,
)
    requires
        speed > 0,
        PlaybackState::begun(
            RecordingState::started(start_ms).capture_all(calls).events,
            speed,
        ).run(readings).0.position == RecordingState::started(start_ms).capture_all(
            calls,
        ).events.len(),
    ensures
        mapped(
            dispatched(
                PlaybackState::begun(
                    RecordingState::started(start_ms).capture_all(calls).events,
                    speed,
                ).run(readings).1,
            ),
        ) == calls.map_values(|c: (InputEvent, u64)| c.0).filter(
            |e: InputEvent| !is_control_event(e),
        ).map_values(|e: InputEvent| command_of(e)),
{
    let recorded = RecordingState::started(start_ms).capture_all(calls).events;
    lemma_recording_keeps_arrival_order(RecordingState::started(start_ms), calls);
    lemma_playback_keeps_order(PlaybackState::begun(recorded, speed), readings);
}

} // verus!
