//! The timeline store: the timed events of one macro, in the order in which
//! they were recorded.
//!
//! A `Timeline` is written by the one recording that owns it. Freezing it
//! moves its events into a `FrozenTimeline`, which offers no way to change
//! them. Both hold their events in order of time and hold no press or
//! release of a key kept for control: that is an invariant of the two types.

use vstd::prelude::*;
use crate::event::{is_control_event, InputEvent, TimedEvent};

verus! {

/// No event of `events` happened before one that precedes it.
pub open spec fn offsets_non_decreasing(events: Seq<TimedEvent>) -> bool {
    forall|i: int, j: int|
        #![trigger events[i], events[j]]
        0 <= i <= j < events.len() ==> events[i].offset_ms <= events[j].offset_ms
}

/// No event of `events` is a press or release of a key kept for control.
pub open spec fn free_of_control_events(events: Seq<TimedEvent>) -> bool {
    forall|i: int| 0 <= i < events.len() ==> !is_control_event(#[trigger] events[i].event)
}

/// What holds of the events of every timeline.
pub open spec fn well_formed(events: Seq<TimedEvent>) -> bool {
    offsets_non_decreasing(events) && free_of_control_events(events)
}

/// The offset of the last event of `events`, zero where there is none.
pub open spec fn last_offset(events: Seq<TimedEvent>) -> u64 {
    if events.len() == 0 {
        0
    } else {
        events.last().offset_ms
    }
}

/// A timeline that is being recorded.
#[derive(Debug)]
pub struct Timeline {
    events: Vec<TimedEvent>,
}

/// A timeline whose recording is over.
#[derive(Debug, PartialEq, Eq)]
pub struct FrozenTimeline {
    events: Vec<TimedEvent>,
}

/// A walk over a frozen timeline from its first event to its last.
#[derive(Debug)]
pub struct TimelineIter<'a> {
    timeline: &'a FrozenTimeline,
    position: usize,
}

impl View for Timeline {
    type V = Seq<TimedEvent>;

    closed spec fn view(&self) -> Seq<TimedEvent> {
        self.events@
    }
}

impl View for FrozenTimeline {
    type V = Seq<TimedEvent>;

    closed spec fn view(&self) -> Seq<TimedEvent> {
        self.events@
    }
}

impl Timeline {
    /// The events are in order of time and free of control keys. This holds
    /// of every timeline.
    #[verifier::type_invariant]
    pub open spec fn wf(&self) -> bool {
        well_formed(self@)
    }

    /// An empty timeline.
    pub fn new() -> (timeline: Timeline)
        ensures
            timeline@ == Seq::<TimedEvent>::empty(),
            timeline.wf(),
    {
        Timeline { events: Vec::new() }
    }

    /// The number of events recorded so far.
    pub fn len(&self) -> (n: usize)
        ensures
            n == self@.len(),
    {
        self.events.len()
    }

    /// The offset of the event recorded last, zero where there is none.
    pub fn last_offset(&self) -> (offset_ms: u64)
        ensures
            offset_ms == last_offset(self@),
    {
        let n: usize = self.events.len();
        if n == 0 {
            0
        } else {
            self.events[n - 1].offset_ms
        }
    }

    /// Adds `event` at `offset_ms` behind the events recorded so far. Every
    /// call adds one event: none is merged with its neighbour or left out.
    pub fn append(&mut self, event: InputEvent, offset_ms: u64)
        requires
            !is_control_event(event),
            offset_ms >= last_offset(old(self)@),
        ensures
            final(self)@ == old(self)@.push(TimedEvent { event, offset_ms }),
            final(self).wf(),
    {
        proof {
            use_type_invariant(&*self);
        }
        // The events leave the timeline while they grow: what stays behind
        // is a timeline at every moment.
        let mut events: Vec<TimedEvent> = Vec::new();
        core::mem::swap(&mut self.events, &mut events);
        events.push(TimedEvent { event, offset_ms });
        self.events = events;
    }

    /// Ends the recording: the events move into a timeline that can no
    /// longer change.
    pub fn freeze(self) -> (frozen: FrozenTimeline)
        ensures
            frozen@ == self@,
            frozen.wf(),
    {
        proof {
            use_type_invariant(&self);
        }
        FrozenTimeline { events: self.events }
    }
}

impl FrozenTimeline {
    /// The events are in order of time and free of control keys. This holds
    /// of every frozen timeline.
    #[verifier::type_invariant]
    pub open spec fn wf(&self) -> bool {
        well_formed(self@)
    }

    /// The number of events fits the machine's index type.
    pub proof fn lemma_len_fits(&self)
        ensures
            self@.len() <= usize::MAX,
    {
        assert(self.events.len() == self@.len());
    }

    /// A frozen timeline without events.
    pub fn empty() -> (frozen: FrozenTimeline)
        ensures
            frozen@ == Seq::<TimedEvent>::empty(),
            frozen.wf(),
    {
        FrozenTimeline { events: Vec::new() }
    }

    /// The number of events.
    pub fn len(&self) -> (n: usize)
        ensures
            n == self@.len(),
    {
        self.events.len()
    }

    /// Whether there is no event.
    pub fn is_empty(&self) -> (empty: bool)
        ensures
            empty == (self@.len() == 0),
    {
        self.events.len() == 0
    }

    /// The event at `index`, counting from zero in recording order.
    pub fn get(&self, index: usize) -> (event: Option<TimedEvent>)
        ensures
            event == if index < self@.len() {
                Some(self@[index as int])
            } else {
                None
            },
    {
        if index < self.events.len() {
            Some(self.events[index])
        } else {
            None
        }
    }

    /// The time from the start of the recording to its last event.
    pub fn duration_ms(&self) -> (duration: u64)
        ensures
            duration == last_offset(self@),
    {
        let n: usize = self.events.len();
        if n == 0 {
            0
        } else {
            self.events[n - 1].offset_ms
        }
    }

    /// A second timeline with the same events.
    pub fn duplicate(&self) -> (copy: FrozenTimeline)
        ensures
            copy@ == self@,
    {
        proof {
            use_type_invariant(self);
        }
        let mut events: Vec<TimedEvent> = Vec::new();
        let n: usize = self.events.len();
        let mut i: usize = 0;
        while i < n
            invariant
                n == self.events@.len(),
                i <= n,
                events@ == self.events@.take(i as int),
            decreases n - i,
        {
            events.push(self.events[i]);
            i += 1;
        }
        FrozenTimeline { events }
    }

    /// Starts a walk over the events in recording order. The walk reads one
    /// event at a time; a new call starts again at the first.
    pub fn iter_in_order(&self) -> (iter: TimelineIter<'_>)
        ensures
            iter.source() == self@,
            iter.position() == 0,
    {
        TimelineIter { timeline: self, position: 0 }
    }
}

impl<'a> TimelineIter<'a> {
    /// The events of the timeline that is walked.
    pub closed spec fn source(&self) -> Seq<TimedEvent> {
        self.timeline@
    }

    /// How many events the walk has handed out.
    pub closed spec fn position(&self) -> nat {
        self.position as nat
    }

    /// Hands out the next event, or `None` behind the last one.
    pub fn next(&mut self) -> (event: Option<TimedEvent>)
        ensures
            final(self).source() == old(self).source(),
            event == if old(self).position() < old(self).source().len() {
                Some(old(self).source()[old(self).position() as int])
            } else {
                None
            },
            final(self).position() == if old(self).position() < old(self).source().len() {
                old(self).position() + 1
            } else {
                old(self).position()
            },
    {
        if self.position < self.timeline.len() {
            let event = self.timeline.get(self.position);
            self.position += 1;
            event
        } else {
            None
        }
    }
}

/// An event that is no control signal and does not precede the last one can
/// follow a well-formed sequence of events.
pub proof fn lemma_push_keeps_well_formed(events: Seq<TimedEvent>, next: TimedEvent)
    requires
        well_formed(events),
        !is_control_event(next.event),
        next.offset_ms >= last_offset(events),
    ensures
        well_formed(events.push(next)),
{
}

/// In a well-formed sequence no event lies behind the last one in time.
pub proof fn lemma_last_offset_is_greatest(events: Seq<TimedEvent>, i: int)
    requires
        offsets_non_decreasing(events),
        0 <= i < events.len(),
    ensures
        events[i].offset_ms <= last_offset(events),
{
}

} // verus!
