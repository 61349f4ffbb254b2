//! The recording session: from the callbacks of a listener to a timeline.
//!
//! A session is created when a recording starts and consumed when it ends.
//! While it lives it owns the timeline that it fills. The caller registers
//! the callbacks, hands each one in with a clock reading, asks between sleeps
//! whether the recording is over, and finishes it.

use vstd::prelude::*;
use crate::clock::{later_of, Stopwatch};
use crate::event::{is_control_event, InputEvent, KeyCode, TimedEvent, STOP_KEY};
use crate::timeline::{
    free_of_control_events,
    last_offset,
    offsets_non_decreasing,
    well_formed,
    FrozenTimeline,
    Timeline,
};

verus! {

/// How long the caller sleeps before it asks again whether the recording is
/// over.
pub const RECORDING_POLL_MS: u64 = 10;

/// What a recording session is, as a value: when it started, the latest
/// clock reading it has seen, the events recorded so far, and whether its
/// end has been asked for.
#[verifier::ext_equal]
pub struct RecordingState {
    pub start_ms: u64,
    pub latest_ms: u64,
    pub events: Seq<TimedEvent>,
    pub stop_requested: bool,
}

impl RecordingState {
    /// The events are a well-formed timeline, and none of them lies behind
    /// the latest reading.
    pub open spec fn wf(self) -> bool {
        &&& self.start_ms <= self.latest_ms
        &&& well_formed(self.events)
        &&& last_offset(self.events) <= self.latest_ms - self.start_ms
    }

    /// A session that starts at the reading `now_ms`.
    pub open spec fn started(now_ms: u64) -> RecordingState {
        RecordingState {
            start_ms: now_ms,
            latest_ms: now_ms,
            events: Seq::empty(),
            stop_requested: false,
        }
    }

    /// The session after the callback `event` has arrived at the reading
    /// `now_ms`. A control signal changes nothing. Any other event is
    /// recorded at the time that has passed since the start.
    pub open spec fn capture(self, event: InputEvent, now_ms: u64) -> RecordingState {
        if is_control_event(event) {
            self
        } else {
            let latest_ms = later_of(self.latest_ms, now_ms);
            RecordingState {
                latest_ms,
                events: self.events.push(
                    TimedEvent { event, offset_ms: (latest_ms - self.start_ms) as u64 },
                ),
                ..self
            }
        }
    }

    /// The session after the callbacks `calls` have arrived one after the
    /// other, each an event with the reading taken on its arrival.
    pub open spec fn capture_all(self, calls: Seq<(InputEvent, u64)>) -> RecordingState
        decreases calls.len(),
    {
        if calls.len() == 0 {
            self
        } else {
            self.capture_all(calls.drop_last()).capture(calls.last().0, calls.last().1)
        }
    }

    /// The session after its end has been asked for.
    pub open spec fn stop(self) -> RecordingState {
        RecordingState { stop_requested: true, ..self }
    }

    /// Whether the recording is over: its end was asked for, or the stop key
    /// is among the keys held down.
    pub open spec fn terminates(self, pressed: Seq<KeyCode>) -> bool {
        self.stop_requested || pressed.contains(STOP_KEY)
    }
}

/// A recording in progress.
#[derive(Debug)]
pub struct RecordingSession {
    clock: Stopwatch,
    timeline: Timeline,
    stop_requested: bool,
}

impl View for RecordingSession {
    type V = RecordingState;

    closed spec fn view(&self) -> RecordingState {
        RecordingState {
            start_ms: self.clock.started_at(),
            latest_ms: self.clock.latest(),
            events: self.timeline@,
            stop_requested: self.stop_requested,
        }
    }
}

/// Tells whether the stop key is among the keys that are held down.
pub fn holds_stop_key(pressed: &Vec<KeyCode>) -> (held: bool)
    ensures
        held == pressed@.contains(STOP_KEY),
{
    let n: usize = pressed.len();
    let mut i: usize = 0;
    while i < n
        invariant
            n == pressed@.len(),
            i <= n,
            forall|k: int| 0 <= k < i ==> pressed@[k] != STOP_KEY,
        decreases n - i,
    {
        if pressed[i] == STOP_KEY {
            return true;
        }
        i += 1;
    }
    false
}

impl RecordingSession {
    /// The session, as a value, is well-formed. This holds of every session.
    #[verifier::type_invariant]
    pub open spec fn wf(&self) -> bool {
        self@.wf()
    }

    /// Starts a recording at the reading `now_ms`, with an empty timeline.
    pub fn start(now_ms: u64) -> (session: RecordingSession)
        ensures
            session@ == RecordingState::started(now_ms),
            session.wf(),
    {
        RecordingSession {
            clock: Stopwatch::start(now_ms),
            timeline: Timeline::new(),
            stop_requested: false,
        }
    }

    /// Takes one callback of the listener: `event`, which arrived at the
    /// reading `now_ms`. Returns whether the event was recorded; a press or
    /// release of a key kept for control is not.
    pub fn capture(&mut self, event: InputEvent, now_ms: u64) -> (recorded: bool)
        ensures
            final(self)@ == old(self)@.capture(event, now_ms),
            final(self).wf(),
            recorded == !is_control_event(event),
    {
        proof {
            use_type_invariant(&*self);
        }
        if event.is_control() {
            return false;
        }
        let mut clock = self.clock;
        let offset_ms: u64 = clock.read(now_ms);
        self.clock = clock;
        // The timeline leaves the session while it grows: what stays behind
        // is a session at every moment.
        let mut timeline = Timeline::new();
        core::mem::swap(&mut self.timeline, &mut timeline);
        timeline.append(event, offset_ms);
        self.timeline = timeline;
        true
    }

    /// Asks for the end of the recording. Asking again changes nothing.
    pub fn stop(&mut self)
        ensures
            final(self)@ == old(self)@.stop(),
            final(self).wf(),
    {
        proof {
            use_type_invariant(&*self);
        }
        self.stop_requested = true;
    }

    /// Tells whether the recording is over, given the keys that are held
    /// down at this moment.
    pub fn should_terminate(&self, pressed: &Vec<KeyCode>) -> (over: bool)
        ensures
            over == self@.terminates(pressed@),
    {
        self.stop_requested || holds_stop_key(pressed)
    }

    /// The number of events recorded so far.
    pub fn len(&self) -> (n: usize)
        ensures
            n == self@.events.len(),
    {
        self.timeline.len()
    }

    /// Ends the recording and hands out its timeline, frozen.
    pub fn finish(self) -> (frozen: FrozenTimeline)
        ensures
            frozen@ == self@.events,
            frozen.wf(),
    {
        self.timeline.freeze()
    }
}

/// Taking a callback keeps a session well-formed.
pub proof fn lemma_capture_keeps_wf(state: RecordingState, event: InputEvent, now_ms: u64)
    requires
        state.wf(),
    ensures
        state.capture(event, now_ms).wf(),
{
}

/// Asking for the end of a recording twice is asking once, and takes no
/// event away.
pub proof fn lemma_stop_is_idempotent(state: RecordingState)
    ensures
        state.stop().stop() == state.stop(),
        state.stop().events == state.events,
        state.wf() ==> state.stop().wf(),
        forall|pressed: Seq<KeyCode>| #[trigger] state.stop().terminates(pressed),
{
}

/// With a clock that does not run backwards, an event is recorded at the
/// time that lies between the start of the recording and its arrival.
pub proof fn lemma_offset_is_time_since_start(
    state: RecordingState,
    event: InputEvent,
    now_ms: u64,
)
    requires
        state.wf(),
        !is_control_event(event),
        now_ms >= state.latest_ms,
    ensures
        state.capture(event, now_ms).events == state.events.push(
            TimedEvent { event, offset_ms: (now_ms - state.start_ms) as u64 },
        ),
{
}

/// Whatever callbacks arrive during a recording, and whatever the clock
/// readings taken on their arrival, the timeline that results holds its
/// events in order of time and holds no press or release of a key kept for
/// control. Read without their times, the events added are the callbacks in
/// the order of their arrival, less the control signals: none is merged,
/// repeated or moved.
pub proof fn lemma_recording_keeps_arrival_order(
    state: RecordingState,
    calls: Seq<(InputEvent, u64)>,
)
    requires
        state.wf(),
    ensures
        state.capture_all(calls).wf(),
        offsets_non_decreasing(state.capture_all(calls).events),
        free_of_control_events(state.capture_all(calls).events),
        state.capture_all(calls).start_ms == state.start_ms,
        state.capture_all(calls).events.len() >= state.events.len(),
        state.capture_all(calls).events.take(state.events.len() as int) == state.events,
        state.capture_all(calls).events.skip(state.events.len() as int).map_values(
            |e: TimedEvent| e.event,
        ) == calls.map_values(|c: (InputEvent, u64)| c.0).filter(
            |e: InputEvent| !is_control_event(e),
        ),
    decreases calls.len(),
{
    reveal(Seq::filter);
    if calls.len() > 0 {
        lemma_recording_keeps_arrival_order(state, calls.drop_last());
        assert(calls.map_values(|c: (InputEvent, u64)| c.0).drop_last()
            =~= calls.drop_last().map_values(|c: (InputEvent, u64)| c.0));
    }
}

} // verus!
