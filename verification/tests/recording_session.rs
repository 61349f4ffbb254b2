use quickrun::event::{ButtonId, InputEvent, KeyCode, TimedEvent};
use quickrun::recording::{holds_stop_key, RecordingSession, RECORDING_POLL_MS};
use quickrun::timeline::FrozenTimeline;

fn events_of(frozen: &FrozenTimeline) -> Vec<TimedEvent> {
    let mut events = Vec::new();
    let mut walk = frozen.iter_in_order();
    while let Some(event) = walk.next() {
        events.push(event);
    }
    events
}

#[test]
fn recording_poll_period_is_ten_milliseconds() {
    assert_eq!(RECORDING_POLL_MS, 10);
}

#[test]
fn fresh_session_has_an_empty_timeline() {
    let session = RecordingSession::start(42);
    assert_eq!(session.len(), 0);
    assert!(!session.should_terminate(&Vec::new()));
    assert!(session.finish().is_empty());
}

#[test]
fn capture_stamps_each_event_with_the_time_since_the_start() {
    let mut session = RecordingSession::start(10_000);
    assert!(session.capture(InputEvent::MouseMove { x: 10, y: 10 }, 10_000));
    assert!(session.capture(InputEvent::MouseButtonDown { button: ButtonId::Left }, 10_050));
    assert!(session.capture(InputEvent::MouseButtonUp { button: ButtonId::Left }, 10_120));
    assert_eq!(session.len(), 3);
    assert_eq!(
        events_of(&session.finish()),
        vec![
            TimedEvent { event: InputEvent::MouseMove { x: 10, y: 10 }, offset_ms: 0 },
            TimedEvent {
                event: InputEvent::MouseButtonDown { button: ButtonId::Left },
                offset_ms: 50
            },
            TimedEvent {
                event: InputEvent::MouseButtonUp { button: ButtonId::Left },
                offset_ms: 120
            },
        ]
    );
}

#[test]
fn capture_leaves_out_the_reserved_keys() {
    let mut session = RecordingSession::start(0);
    assert!(session.capture(InputEvent::KeyDown { key: KeyCode::A }, 1));
    assert!(!session.capture(InputEvent::KeyDown { key: KeyCode::F10 }, 2));
    assert!(!session.capture(InputEvent::KeyUp { key: KeyCode::F10 }, 3));
    assert!(!session.capture(InputEvent::KeyDown { key: KeyCode::F12 }, 4));
    assert!(!session.capture(InputEvent::KeyUp { key: KeyCode::F12 }, 5));
    assert!(session.capture(InputEvent::KeyUp { key: KeyCode::A }, 6));
    let events = events_of(&session.finish());
    assert_eq!(
        events,
        vec![
            TimedEvent { event: InputEvent::KeyDown { key: KeyCode::A }, offset_ms: 1 },
            TimedEvent { event: InputEvent::KeyUp { key: KeyCode::A }, offset_ms: 6 },
        ]
    );
    for recorded in events {
        assert!(!recorded.event.is_control());
    }
}

#[test]
fn capture_records_keys_and_buttons_that_cannot_be_replayed() {
    let mut session = RecordingSession::start(0);
    assert!(session.capture(InputEvent::KeyDown { key: KeyCode::F11 }, 1));
    assert!(session.capture(InputEvent::MouseButtonDown { button: ButtonId::Other(4) }, 2));
    assert_eq!(session.len(), 2);
}

#[test]
fn capture_records_every_mouse_move() {
    let mut session = RecordingSession::start(0);
    for i in 0..100 {
        assert!(session.capture(InputEvent::MouseMove { x: 5, y: 5 }, i / 10));
    }
    let events = events_of(&session.finish());
    assert_eq!(events.len(), 100);
    for (i, recorded) in events.iter().enumerate() {
        assert_eq!(
            *recorded,
            TimedEvent { event: InputEvent::MouseMove { x: 5, y: 5 }, offset_ms: i as u64 / 10 }
        );
    }
}

#[test]
fn offsets_never_fall_whatever_the_readings() {
    let readings: [u64; 8] = [900, 1_000, 990, 1_500, 0, 1_500, u64::MAX, 3];
    let mut session = RecordingSession::start(950);
    for (i, now) in readings.iter().enumerate() {
        assert!(session.capture(InputEvent::MouseMove { x: i as i32, y: 0 }, *now));
    }
    let events = events_of(&session.finish());
    let offsets: Vec<u64> = events.iter().map(|e| e.offset_ms).collect();
    assert_eq!(
        offsets,
        vec![0, 50, 50, 550, 550, 550, u64::MAX - 950, u64::MAX - 950]
    );
    for (i, recorded) in events.iter().enumerate() {
        assert_eq!(recorded.event, InputEvent::MouseMove { x: i as i32, y: 0 });
    }
}

#[test]
fn a_filtered_callback_does_not_touch_the_clock() {
    let mut session = RecordingSession::start(100);
    assert!(!session.capture(InputEvent::KeyDown { key: KeyCode::F12 }, 900));
    assert!(session.capture(InputEvent::KeyDown { key: KeyCode::B }, 150));
    assert_eq!(
        events_of(&session.finish()),
        vec![TimedEvent { event: InputEvent::KeyDown { key: KeyCode::B }, offset_ms: 50 }]
    );
}

#[test]
fn stop_key_held_is_found_among_the_pressed_keys() {
    assert!(!holds_stop_key(&Vec::new()));
    assert!(!holds_stop_key(&vec![KeyCode::A, KeyCode::F10, KeyCode::F11]));
    assert!(holds_stop_key(&vec![KeyCode::F12]));
    assert!(holds_stop_key(&vec![KeyCode::LShift, KeyCode::F12, KeyCode::A]));
    assert!(holds_stop_key(&vec![KeyCode::A, KeyCode::B, KeyCode::F12]));
}

#[test]
fn session_terminates_on_the_stop_key() {
    let session = RecordingSession::start(0);
    assert!(!session.should_terminate(&vec![KeyCode::F10]));
    assert!(session.should_terminate(&vec![KeyCode::Q, KeyCode::F12]));
}

#[test]
fn session_terminates_on_request() {
    let mut session = RecordingSession::start(0);
    assert!(!session.should_terminate(&Vec::new()));
    session.stop();
    assert!(session.should_terminate(&Vec::new()));
    assert!(session.should_terminate(&vec![KeyCode::F12]));
}

#[test]
fn stop_is_idempotent_and_keeps_the_events() {
    let mut session = RecordingSession::start(0);
    assert!(session.capture(InputEvent::KeyDown { key: KeyCode::A }, 7));
    session.stop();
    session.stop();
    assert!(session.should_terminate(&Vec::new()));
    assert_eq!(session.len(), 1);
    assert_eq!(
        events_of(&session.finish()),
        vec![TimedEvent { event: InputEvent::KeyDown { key: KeyCode::A }, offset_ms: 7 }]
    );
}
