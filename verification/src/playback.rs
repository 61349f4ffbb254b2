//! The playback session: from a frozen timeline to the commands of an
//! injector, each at its time.
//!
//! A session decides; its caller acts. The caller hands in a clock reading
//! and is told to sleep, to carry out one command, or that the playback is
//! over. Events leave in the order of the timeline, none before the time
//! that has passed since the start of the playback reaches the event's
//! offset divided by the speed.

use vstd::prelude::*;
use crate::clock::{later_of, Stopwatch};
use crate::error::SessionError;
use crate::event::{command_for, command_of, InjectorCommand, MappingError, TimedEvent};
use crate::timeline::{
    last_offset,
    offsets_non_decreasing,
    well_formed,
    FrozenTimeline,
};

verus! {

/// How long the caller waits before the first event, so that the window
/// that is to receive the input can take the focus. The wait is no part of
/// the timeline's own time.
pub const SETTLE_DELAY_MS: u64 = 2000;

/// How long the caller sleeps before it asks again for an event that is not
/// due yet.
pub const PLAYBACK_POLL_MS: u64 = 1;

/// What the caller of a playback session has to do next.
#[derive(Clone, Copy, Debug, PartialEq, Eq, Hash, Structural)]
pub enum PlaybackStep {
    /// Sleep for so many milliseconds, then ask again.
    Sleep(u64),
    /// Have the injector carry out the command, then ask again.
    Dispatch(InjectorCommand),
    /// Every event has been dispatched, or the playback was over before.
    Finished,
    /// The next event cannot be reproduced; the playback is over.
    Aborted(MappingError),
}

/// How far a playback has come.
pub enum PlaybackStage {
    /// The settle delay has not been asked for yet.
    Settling,
    /// The settle delay has been asked for; the next reading starts the clock.
    Armed,
    /// Events are being dispatched. The clock started at `start_ms`, and
    /// `latest_ms` is the latest reading.
    Running { start_ms: u64, latest_ms: u64 },
    /// The playback is over.
    Over,
}

/// What a playback session is, as a value.
#[verifier::ext_equal]
pub struct PlaybackState {
    pub timeline: Seq<TimedEvent>,
    pub speed: u8,
    pub stage: PlaybackStage,
    pub position: nat,
}

/// The time after the start of a playback at which an event recorded at
/// `offset_ms` is due, when the playback runs `speed` times as fast as the
/// recording.
pub open spec fn scheduled_offset(offset_ms: u64, speed: u8) -> int
    recommends
        speed > 0,
{
    offset_ms as int / speed as int
}

/// The commands among `steps`, in their order.
pub open spec fn dispatched(steps: Seq<PlaybackStep>) -> Seq<InjectorCommand>
    decreases steps.len(),
{
    if steps.len() == 0 {
        Seq::empty()
    } else {
        match steps.last() {
            PlaybackStep::Dispatch(command) => dispatched(steps.drop_last()).push(command),
            _ => dispatched(steps.drop_last()),
        }
    }
}

impl PlaybackState {
    /// The timeline is well-formed, the speed is positive, the position
    /// lies within the timeline, and a running clock has not read a time
    /// before its start.
    pub open spec fn wf(self) -> bool {
        &&& well_formed(self.timeline)
        &&& self.speed > 0
        &&& self.position <= self.timeline.len()
        &&& (self.stage matches PlaybackStage::Running { start_ms, latest_ms } ==> start_ms
            <= latest_ms)
    }

    /// A playback of `timeline` at `speed` of which nothing has happened yet.
    pub open spec fn begun(timeline: Seq<TimedEvent>, speed: u8) -> PlaybackState {
        PlaybackState { timeline, speed, stage: PlaybackStage::Settling, position: 0 }
    }

    /// Whether the playback is over.
    pub open spec fn is_over(self) -> bool {
        self.stage is Over
    }

    /// One step of a playback whose clock started at `start_ms` and reads
    /// `latest_ms` now. Behind the last event the playback is over. An event
    /// that is not due yet makes the caller sleep. An event that is due
    /// leaves as a command, or ends the playback where it has none.
    pub open spec fn advance(self, start_ms: u64, latest_ms: u64) -> (PlaybackState, PlaybackStep) {
        let running = PlaybackStage::Running { start_ms, latest_ms };
        if self.position >= self.timeline.len() {
            (PlaybackState { stage: PlaybackStage::Over, ..self }, PlaybackStep::Finished)
        } else {
            let next = self.timeline[self.position as int];
            if latest_ms - start_ms < scheduled_offset(next.offset_ms, self.speed) {
                (PlaybackState { stage: running, ..self }, PlaybackStep::Sleep(PLAYBACK_POLL_MS))
            } else {
                match command_of(next.event) {
                    Ok(command) => (
                        PlaybackState { stage: running, position: self.position + 1, ..self },
                        PlaybackStep::Dispatch(command),
                    ),
                    Err(error) => (
                        PlaybackState { stage: PlaybackStage::Over, ..self },
                        PlaybackStep::Aborted(error),
                    ),
                }
            }
        }
    }

    /// The playback after the caller has asked at the reading `now_ms`, and
    /// what it was told. The first answer is the settle delay. The reading
    /// of the second question starts the clock.
    pub open spec fn step(self, now_ms: u64) -> (PlaybackState, PlaybackStep) {
        match self.stage {
            PlaybackStage::Settling => (
                PlaybackState { stage: PlaybackStage::Armed, ..self },
                PlaybackStep::Sleep(SETTLE_DELAY_MS),
            ),
            PlaybackStage::Armed => self.advance(now_ms, now_ms),
            PlaybackStage::Running { start_ms, latest_ms } => self.advance(
                start_ms,
                later_of(latest_ms, now_ms),
            ),
            PlaybackStage::Over => (self, PlaybackStep::Finished),
        }
    }

    /// The playback after the caller has asked at each of `readings` in
    /// turn, and the answers it was given.
    pub open spec fn run(self, readings: Seq<u64>) -> (PlaybackState, Seq<PlaybackStep>)
        decreases readings.len(),
    {
        if readings.len() == 0 {
            (self, Seq::empty())
        } else {
            let (before, steps) = self.run(readings.drop_last());
            let (after, step) = before.step(readings.last());
            (after, steps.push(step))
        }
    }

    /// Whether the playback is running and the time since its start has
    /// reached `due_ms`.
    pub open spec fn has_reached(self, due_ms: int) -> bool {
        self.stage matches PlaybackStage::Running { start_ms, latest_ms } && latest_ms - start_ms
            >= due_ms
    }

    /// Whether every event from the position on has a command.
    pub open spec fn rest_is_reproducible(self) -> bool {
        forall|k: int|
            self.position <= k < self.timeline.len() ==> command_of(
                #[trigger] self.timeline[k].event,
            ) is Ok
    }

    /// The playback stopped: over, with nothing else changed.
    pub open spec fn abort(self) -> PlaybackState {
        PlaybackState { stage: PlaybackStage::Over, ..self }
    }
}

#[derive(Debug)]
enum Stage {
    Settling,
    Armed,
    Running(Stopwatch),
    Over,
}

/// A playback in progress, or one that is over.
#[derive(Debug)]
pub struct PlaybackSession {
    timeline: FrozenTimeline,
    speed: u8,
    stage: Stage,
    position: usize,
}

impl View for PlaybackSession {
    type V = PlaybackState;

    closed spec fn view(&self) -> PlaybackState {
        PlaybackState {
            timeline: self.timeline@,
            speed: self.speed,
            stage: match self.stage {
                Stage::Settling => PlaybackStage::Settling,
                Stage::Armed => PlaybackStage::Armed,
                Stage::Running(watch) => PlaybackStage::Running {
                    start_ms: watch.started_at(),
                    latest_ms: watch.latest(),
                },
                Stage::Over => PlaybackStage::Over,
            },
            position: self.position as nat,
        }
    }
}

/// Computes the time after the start of a playback at which an event
/// recorded at `offset_ms` is due.
pub fn scheduled_ms(offset_ms: u64, speed: u8) -> (due_ms: u64)
    requires
        speed > 0,
    ensures
        due_ms == scheduled_offset(offset_ms, speed),
{
    offset_ms / (speed as u64)
}

impl PlaybackSession {
    /// The session, as a value, is well-formed. This holds of every session.
    #[verifier::type_invariant]
    pub open spec fn wf(&self) -> bool {
        self@.wf()
    }

    /// Starts a playback of `timeline` at `speed`. A timeline without
    /// events is no macro, and is refused first; then a speed of zero.
    pub fn play(timeline: &FrozenTimeline, speed: u8) -> (started: Result<
        PlaybackSession,
        SessionError,
    >)
        ensures
            timeline@.len() == 0 ==> started == Err::<PlaybackSession, SessionError>(
                SessionError::NoMacroRecorded,
            ),
            timeline@.len() > 0 && speed == 0 ==> started == Err::<PlaybackSession, SessionError>(
                SessionError::InvalidSpeed,
            ),
            timeline@.len() > 0 && speed > 0 ==> started is Ok && started->Ok_0@
                == PlaybackState::begun(timeline@, speed) && started->Ok_0.wf(),
    {
        proof {
            use_type_invariant(timeline);
        }
        if timeline.is_empty() {
            return Err(SessionError::NoMacroRecorded);
        }
        if speed == 0 {
            return Err(SessionError::InvalidSpeed);
        }
        Ok(
            PlaybackSession {
                timeline: timeline.duplicate(),
                speed,
                stage: Stage::Settling,
                position: 0,
            },
        )
    }

    /// Answers the caller who asks, at the reading `now_ms`, what to do next.
    pub fn step(&mut self, now_ms: u64) -> (step: PlaybackStep)
        ensures
            final(self)@ == old(self)@.step(now_ms).0,
            step == old(self)@.step(now_ms).1,
            final(self).wf(),
    {
        proof {
            use_type_invariant(&*self);
        }
        let mut watch = match self.stage {
            Stage::Settling => {
                self.stage = Stage::Armed;
                return PlaybackStep::Sleep(SETTLE_DELAY_MS);
            },
            Stage::Armed => Stopwatch::start(now_ms),
            Stage::Running(watch) => watch,
            Stage::Over => {
                return PlaybackStep::Finished;
            },
        };
        let elapsed_ms: u64 = watch.read(now_ms);
        proof {
            self.timeline.lemma_len_fits();
        }
        match self.timeline.get(self.position) {
            None => {
                self.stage = Stage::Over;
                PlaybackStep::Finished
            },
            Some(next) => {
                if elapsed_ms < scheduled_ms(next.offset_ms, self.speed) {
                    self.stage = Stage::Running(watch);
                    PlaybackStep::Sleep(PLAYBACK_POLL_MS)
                } else {
                    match command_for(&next.event) {
                        Ok(command) => {
                            self.stage = Stage::Running(watch);
                            self.position += 1;
                            PlaybackStep::Dispatch(command)
                        },
                        Err(error) => {
                            self.stage = Stage::Over;
                            PlaybackStep::Aborted(error)
                        },
                    }
                }
            },
        }
    }

    /// Stops the playback where it is, as after a failure of the injector.
    pub fn abort(&mut self)
        ensures
            final(self)@ == old(self)@.abort(),
            final(self).wf(),
    {
        proof {
            use_type_invariant(&*self);
        }
        self.stage = Stage::Over;
    }

    /// Tells whether the playback is over.
    pub fn is_over(&self) -> (over: bool)
        ensures
            over == self@.is_over(),
    {
        match self.stage {
            Stage::Over => true,
            _ => false,
        }
    }

    /// The number of events dispatched so far.
    pub fn position(&self) -> (n: usize)
        ensures
            n == self@.position,
    {
        self.position
    }
}

/// What the mapping gives for each of `events`, in order.
pub open spec fn commands_of(events: Seq<TimedEvent>) -> Seq<
    Result<InjectorCommand, MappingError>,
> {
    events.map_values(|e: TimedEvent| command_of(e.event))
}

/// Each of `commands` as the outcome of a mapping that succeeded.
pub open spec fn mapped(commands: Seq<InjectorCommand>) -> Seq<
    Result<InjectorCommand, MappingError>,
> {
    commands.map_values(|c: InjectorCommand| Ok::<InjectorCommand, MappingError>(c))
}

/// The time after the start of a playback at which the last event of
/// `events` is due: the length of the whole playback, the settle delay apart.
pub open spec fn scheduled_duration(events: Seq<TimedEvent>, speed: u8) -> int
    recommends
        speed > 0,
{
    scheduled_offset(last_offset(events), speed)
}

/// One step keeps a playback well-formed, and changes neither its timeline
/// nor its speed. The position stays or moves on by one; it never moves back.
pub proof fn lemma_step_keeps_wf(state: PlaybackState, now_ms: u64)
    requires
        state.wf(),
    ensures
        state.step(now_ms).0.wf(),
        state.step(now_ms).0.timeline == state.timeline,
        state.step(now_ms).0.speed == state.speed,
        state.position <= state.step(now_ms).0.position <= state.position + 1,
{
}

/// An event is dispatched only when it is due: the step that hands out a
/// command hands out the command of the event at the position, moves the
/// position on by one, and is taken at a time since the start of the
/// playback that is no less than the event's offset divided by the speed.
pub proof fn lemma_dispatch_never_early(state: PlaybackState, now_ms: u64)
    requires
        state.wf(),
        state.step(now_ms).1 is Dispatch,
    ensures
        state.position < state.timeline.len(),
        command_of(state.timeline[state.position as int].event) == Ok::<
            InjectorCommand,
            MappingError,
        >(state.step(now_ms).1->Dispatch_0),
        state.step(now_ms).0.position == state.position + 1,
        state.step(now_ms).0.stage matches PlaybackStage::Running { start_ms, latest_ms }
            && latest_ms - start_ms >= scheduled_offset(
            state.timeline[state.position as int].offset_ms,
            state.speed,
        ),
{
}

/// An event that is due is not held back: in a running playback, a step
/// taken when the time since the start has reached the due time of the
/// event at the position does not answer with a sleep.
pub proof fn lemma_due_event_not_delayed(state: PlaybackState, now_ms: u64)
    requires
        state.wf(),
        state.position < state.timeline.len(),
        state.stage matches PlaybackStage::Running { start_ms, latest_ms } && later_of(
            latest_ms,
            now_ms,
        ) - start_ms >= scheduled_offset(
            state.timeline[state.position as int].offset_ms,
            state.speed,
        ),
    ensures
        !(state.step(now_ms).1 is Sleep),
        state.step(now_ms).1 is Dispatch <==> command_of(
            state.timeline[state.position as int].event,
        ) is Ok,
{
}

/// An event leaves as soon as the caller asks after it has become due. If
/// it was not due at the reading before, it leaves later than its due time
/// by less than the time between the two readings: the delay of an event is
/// bounded by how often the caller asks.
pub proof fn lemma_delay_is_less_than_the_gap(state: PlaybackState, now_ms: u64)
    requires
        state.wf(),
        state.position < state.timeline.len(),
        state.stage matches PlaybackStage::Running { start_ms, latest_ms } && latest_ms - start_ms
            < scheduled_offset(state.timeline[state.position as int].offset_ms, state.speed),
        state.step(now_ms).1 is Dispatch,
    ensures
        state.stage matches PlaybackStage::Running { start_ms, latest_ms } && now_ms > latest_ms
            && (now_ms - start_ms) - scheduled_offset(
            state.timeline[state.position as int].offset_ms,
            state.speed,
        ) < now_ms - latest_ms,
{
}

/// An event that cannot be reproduced ends the playback: the step that
/// meets it names the key or button, hands out no command, and leaves the
/// playback over.
pub proof fn lemma_unsupported_event_aborts(state: PlaybackState, now_ms: u64)
    requires
        state.wf(),
        state.step(now_ms).1 is Aborted,
    ensures
        state.position < state.timeline.len(),
        command_of(state.timeline[state.position as int].event) == Err::<
            InjectorCommand,
            MappingError,
        >(state.step(now_ms).1->Aborted_0),
        state.step(now_ms).0.is_over(),
        state.step(now_ms).0.position == state.position,
{
}

/// A playback that is over stays over: whatever readings follow, every
/// answer is `Finished`, no command leaves, and nothing changes.
pub proof fn lemma_over_stays_over(state: PlaybackState, readings: Seq<u64>)
    requires
        state.is_over(),
    ensures
        state.run(readings).0 == state,
        state.run(readings).1.len() == readings.len(),
        forall|i: int|
            0 <= i < readings.len() ==> #[trigger] state.run(readings).1[i]
                == PlaybackStep::Finished,
        dispatched(state.run(readings).1) == Seq::<InjectorCommand>::empty(),
    decreases readings.len(),
{
    if readings.len() > 0 {
        lemma_over_stays_over(state, readings.drop_last());
        let steps = state.run(readings.drop_last()).1;
        assert(steps.push(PlaybackStep::Finished).drop_last() =~= steps);
    }
}

/// Whatever readings a playback is asked at, the commands that leave are
/// those of the events between the position before and the position after,
/// one command for each event, in the order of the timeline. No event is
/// passed over and none leaves twice, at any speed.
pub proof fn lemma_playback_keeps_order(state: PlaybackState, readings: Seq<u64>)
    requires
        state.wf(),
    ensures
        state.run(readings).0.wf(),
        state.run(readings).0.timeline == state.timeline,
        state.run(readings).0.speed == state.speed,
        state.run(readings).1.len() == readings.len(),
        state.position <= state.run(readings).0.position <= state.timeline.len(),
        mapped(dispatched(state.run(readings).1)) == commands_of(
            state.timeline.subrange(
                state.position as int,
                state.run(readings).0.position as int,
            ),
        ),
    decreases readings.len(),
{
    if readings.len() > 0 {
        lemma_playback_keeps_order(state, readings.drop_last());
        let (before, steps) = state.run(readings.drop_last());
        let step = before.step(readings.last()).1;
        assert(steps.push(step).drop_last() =~= steps);
        if step is Dispatch {
            let first = state.position as int;
            let reached = before.position as int;
            assert(commands_of(state.timeline.subrange(first, reached + 1)) =~= commands_of(
                state.timeline.subrange(first, reached),
            ).push(command_of(state.timeline[reached].event)));
        }
    }
}

/// Every recorded event fires. Once the time since the start has reached
/// the due time of the last event, a playback whose remaining events all
/// have a command hands out one of them at each step, in order and without
/// a sleep, whatever the readings are; behind the last it is finished.
pub proof fn lemma_due_events_all_fire(state: PlaybackState, readings: Seq<u64>)
    requires
        state.wf(),
        state.has_reached(scheduled_duration(state.timeline, state.speed)),
        state.rest_is_reproducible(),
        readings.len() <= state.timeline.len() - state.position,
    ensures
        state.run(readings).0.wf(),
        state.run(readings).0.timeline == state.timeline,
        state.run(readings).0.speed == state.speed,
        state.run(readings).0.has_reached(scheduled_duration(state.timeline, state.speed)),
        state.run(readings).0.position == state.position + readings.len(),
        state.run(readings).1.len() == readings.len(),
        forall|i: int|
            0 <= i < readings.len() ==> (#[trigger] state.run(readings).1[i]) is Dispatch
                && command_of(state.timeline[state.position + i].event) == Ok::<
                InjectorCommand,
                MappingError,
            >(state.run(readings).1[i]->Dispatch_0),
        state.run(readings).0.position == state.timeline.len() ==> forall|now_ms: u64|
            (#[trigger] state.run(readings).0.step(now_ms)).1 == PlaybackStep::Finished,
    decreases readings.len(),
{
    if readings.len() > 0 {
        lemma_due_events_all_fire(state, readings.drop_last());
        lemma_playback_length(state.timeline, state.speed);
    }
}

/// The due time of an event is its offset divided by the speed, rounded
/// down. At speed one it is the offset itself, at speed two half of it, and
/// at no speed is it later than the offset.
pub proof fn lemma_speed_divides_schedule(offset_ms: u64, speed: u8)
    requires
        speed > 0,
    ensures
        scheduled_offset(offset_ms, 1) == offset_ms,
        scheduled_offset(offset_ms, 2) == scheduled_offset(offset_ms, 1) / 2,
        scheduled_offset(offset_ms, speed) <= offset_ms,
        speed * scheduled_offset(offset_ms, speed) <= offset_ms < speed * (scheduled_offset(
            offset_ms,
            speed,
        ) + 1),
{
    let o = offset_ms as int;
    let n = speed as int;
    assert(n * (o / n) <= o < n * (o / n + 1) && o / n <= o) by (nonlinear_arith)
        requires
            n > 0,
            o >= 0,
    ;
}

/// Of two events, the one recorded earlier is due no later, at any speed.
pub proof fn lemma_schedule_keeps_order(earlier_ms: u64, later_ms: u64, speed: u8)
    requires
        speed > 0,
        earlier_ms <= later_ms,
    ensures
        scheduled_offset(earlier_ms, speed) <= scheduled_offset(later_ms, speed),
{
    let a = earlier_ms as int;
    let b = later_ms as int;
    let n = speed as int;
    assert(a / n <= b / n) by (nonlinear_arith)
        requires
            n > 0,
            0 <= a <= b,
    ;
}

/// A playback of a timeline whose events are in order of time has all its
/// events due by the due time of the last: that time is the length of the
/// playback. At speed two it is half the length at speed one.
pub proof fn lemma_playback_length(events: Seq<TimedEvent>, speed: u8)
    requires
        speed > 0,
        offsets_non_decreasing(events),
    ensures
        forall|i: int|
            0 <= i < events.len() ==> scheduled_offset(#[trigger] events[i].offset_ms, speed)
                <= scheduled_duration(events, speed),
        scheduled_duration(events, 1) == last_offset(events),
        scheduled_duration(events, 2) == scheduled_duration(events, 1) / 2,
{
    assert forall|i: int| 0 <= i < events.len() implies scheduled_offset(
        #[trigger] events[i].offset_ms,
        speed,
    ) <= scheduled_duration(events, speed) by {
        lemma_schedule_keeps_order(
            events[i].offset_ms,
            last_offset(events),
            speed,
        );
    }
}

} // verus!
