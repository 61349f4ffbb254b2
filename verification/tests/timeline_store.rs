use quickrun::event::{ButtonId, InputEvent, KeyCode, TimedEvent};
use quickrun::timeline::{FrozenTimeline, Timeline};

fn moved(x: i32, y: i32) -> InputEvent {
    InputEvent::MouseMove { x, y }
}

#[test]
fn new_timeline_is_empty() {
    let timeline = Timeline::new();
    assert_eq!(timeline.len(), 0);
    assert_eq!(timeline.last_offset(), 0);
    let frozen = timeline.freeze();
    assert!(frozen.is_empty());
    assert_eq!(frozen.len(), 0);
    assert_eq!(frozen.get(0), None);
    assert_eq!(frozen.duration_ms(), 0);
}

#[test]
fn empty_frozen_timeline_equals_a_frozen_new_one() {
    assert_eq!(FrozenTimeline::empty(), Timeline::new().freeze());
}

#[test]
fn append_keeps_call_order() {
    let mut timeline = Timeline::new();
    timeline.append(moved(1, 1), 0);
    timeline.append(InputEvent::KeyDown { key: KeyCode::A }, 5);
    timeline.append(InputEvent::KeyUp { key: KeyCode::A }, 9);
    assert_eq!(timeline.len(), 3);
    assert_eq!(timeline.last_offset(), 9);
    let frozen = timeline.freeze();
    assert_eq!(frozen.len(), 3);
    assert_eq!(frozen.get(0), Some(TimedEvent { event: moved(1, 1), offset_ms: 0 }));
    assert_eq!(
        frozen.get(1),
        Some(TimedEvent { event: InputEvent::KeyDown { key: KeyCode::A }, offset_ms: 5 })
    );
    assert_eq!(
        frozen.get(2),
        Some(TimedEvent { event: InputEvent::KeyUp { key: KeyCode::A }, offset_ms: 9 })
    );
    assert_eq!(frozen.get(3), None);
    assert_eq!(frozen.duration_ms(), 9);
}

#[test]
fn append_neither_merges_nor_drops_repeated_events() {
    let mut timeline = Timeline::new();
    for _ in 0..4 {
        timeline.append(moved(7, 7), 3);
    }
    let frozen = timeline.freeze();
    assert_eq!(frozen.len(), 4);
    for i in 0..4 {
        assert_eq!(frozen.get(i), Some(TimedEvent { event: moved(7, 7), offset_ms: 3 }));
    }
}

#[test]
fn append_takes_the_largest_offset() {
    let mut timeline = Timeline::new();
    timeline.append(moved(0, 0), u64::MAX);
    timeline.append(moved(1, 0), u64::MAX);
    assert_eq!(timeline.last_offset(), u64::MAX);
    assert_eq!(timeline.freeze().duration_ms(), u64::MAX);
}

#[test]
fn walk_hands_out_events_in_recording_order() {
    let mut timeline = Timeline::new();
    timeline.append(moved(1, 2), 0);
    timeline.append(InputEvent::MouseButtonDown { button: ButtonId::Left }, 10);
    timeline.append(InputEvent::MouseButtonUp { button: ButtonId::Left }, 30);
    let frozen = timeline.freeze();
    let mut walk = frozen.iter_in_order();
    assert_eq!(walk.next(), Some(TimedEvent { event: moved(1, 2), offset_ms: 0 }));
    assert_eq!(
        walk.next(),
        Some(TimedEvent {
            event: InputEvent::MouseButtonDown { button: ButtonId::Left },
            offset_ms: 10
        })
    );
    assert_eq!(
        walk.next(),
        Some(TimedEvent {
            event: InputEvent::MouseButtonUp { button: ButtonId::Left },
            offset_ms: 30
        })
    );
    assert_eq!(walk.next(), None);
    assert_eq!(walk.next(), None);
}

#[test]
fn walk_can_be_started_again() {
    let mut timeline = Timeline::new();
    timeline.append(moved(4, 4), 1);
    timeline.append(moved(5, 5), 2);
    let frozen = timeline.freeze();
    let mut first = frozen.iter_in_order();
    assert_eq!(first.next(), Some(TimedEvent { event: moved(4, 4), offset_ms: 1 }));
    let mut second = frozen.iter_in_order();
    assert_eq!(second.next(), Some(TimedEvent { event: moved(4, 4), offset_ms: 1 }));
    assert_eq!(second.next(), Some(TimedEvent { event: moved(5, 5), offset_ms: 2 }));
    assert_eq!(first.next(), Some(TimedEvent { event: moved(5, 5), offset_ms: 2 }));
    assert_eq!(first.next(), None);
    assert_eq!(second.next(), None);
}

#[test]
fn walk_over_an_empty_timeline_ends_at_once() {
    let frozen = FrozenTimeline::empty();
    let mut walk = frozen.iter_in_order();
    assert_eq!(walk.next(), None);
}

#[test]
fn duplicate_holds_the_same_events() {
    let mut timeline = Timeline::new();
    timeline.append(moved(1, 1), 3);
    timeline.append(InputEvent::KeyDown { key: KeyCode::Tab }, 8);
    let frozen = timeline.freeze();
    let copy = frozen.duplicate();
    assert_eq!(copy, frozen);
    assert_eq!(copy.len(), 2);
    assert_eq!(
        copy.get(1),
        Some(TimedEvent { event: InputEvent::KeyDown { key: KeyCode::Tab }, offset_ms: 8 })
    );
    assert_eq!(FrozenTimeline::empty().duplicate(), FrozenTimeline::empty());
}
