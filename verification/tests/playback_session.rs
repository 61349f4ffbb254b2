use quickrun::error::SessionError;
use quickrun::event::{
    ButtonId, InjectorCommand, InputEvent, KeyCode, MappingError, PlatformButton, PlatformKey,
};
use quickrun::playback::{
    scheduled_ms, PlaybackSession, PlaybackStep, PLAYBACK_POLL_MS, SETTLE_DELAY_MS,
};
use quickrun::timeline::{FrozenTimeline, Timeline};

fn click_macro() -> FrozenTimeline {
    let mut timeline = Timeline::new();
    timeline.append(InputEvent::MouseMove { x: 10, y: 10 }, 0);
    timeline.append(InputEvent::MouseButtonDown { button: ButtonId::Left }, 50);
    timeline.append(InputEvent::MouseButtonUp { button: ButtonId::Left }, 120);
    timeline.freeze()
}

fn settled(timeline: &FrozenTimeline, speed: u8) -> PlaybackSession {
    let mut session = PlaybackSession::play(timeline, speed).unwrap();
    assert_eq!(session.step(0), PlaybackStep::Sleep(SETTLE_DELAY_MS));
    session
}

#[test]
fn playback_constants() {
    assert_eq!(SETTLE_DELAY_MS, 2_000);
    assert_eq!(PLAYBACK_POLL_MS, 1);
}

#[test]
fn due_time_is_the_offset_divided_by_the_speed() {
    assert_eq!(scheduled_ms(120, 1), 120);
    assert_eq!(scheduled_ms(120, 2), 60);
    assert_eq!(scheduled_ms(121, 2), 60);
    assert_eq!(scheduled_ms(50, 3), 16);
    assert_eq!(scheduled_ms(0, 7), 0);
    assert_eq!(scheduled_ms(254, 255), 0);
    assert_eq!(scheduled_ms(255, 255), 1);
    assert_eq!(scheduled_ms(u64::MAX, 1), u64::MAX);
    assert_eq!(scheduled_ms(u64::MAX, 2), u64::MAX / 2);
}

#[test]
fn play_refuses_a_timeline_without_events() {
    let refused = PlaybackSession::play(&FrozenTimeline::empty(), 1);
    assert!(matches!(refused, Err(SessionError::NoMacroRecorded)));
}

#[test]
fn play_refuses_a_timeline_without_events_before_it_looks_at_the_speed() {
    let refused = PlaybackSession::play(&FrozenTimeline::empty(), 0);
    assert!(matches!(refused, Err(SessionError::NoMacroRecorded)));
}

#[test]
fn play_refuses_speed_zero() {
    let refused = PlaybackSession::play(&click_macro(), 0);
    assert!(matches!(refused, Err(SessionError::InvalidSpeed)));
}

#[test]
fn playback_begins_with_the_settle_delay() {
    let mut session = PlaybackSession::play(&click_macro(), 1).unwrap();
    assert!(!session.is_over());
    assert_eq!(session.position(), 0);
    assert_eq!(session.step(123), PlaybackStep::Sleep(2_000));
    assert_eq!(session.position(), 0);
    assert!(!session.is_over());
}

#[test]
fn settle_delay_is_not_counted_against_the_offsets() {
    let mut session = PlaybackSession::play(&click_macro(), 1).unwrap();
    assert_eq!(session.step(1_000), PlaybackStep::Sleep(SETTLE_DELAY_MS));
    assert_eq!(
        session.step(9_000),
        PlaybackStep::Dispatch(InjectorCommand::MovePointer { x: 10, y: 10 })
    );
    assert_eq!(session.step(9_049), PlaybackStep::Sleep(PLAYBACK_POLL_MS));
    assert_eq!(
        session.step(9_050),
        PlaybackStep::Dispatch(InjectorCommand::PressButton(PlatformButton::Left))
    );
}

#[test]
fn playback_at_speed_one_keeps_order_and_recorded_delays() {
    let mut session = settled(&click_macro(), 1);
    let mut dispatched = Vec::new();
    let mut now: u64 = 5_000;
    loop {
        match session.step(now) {
            PlaybackStep::Sleep(ms) => {
                assert_eq!(ms, 1);
                now += ms;
            }
            PlaybackStep::Dispatch(command) => dispatched.push((command, now - 5_000)),
            PlaybackStep::Finished => break,
            PlaybackStep::Aborted(error) => panic!("aborted: {:?}", error),
        }
    }
    assert_eq!(
        dispatched,
        vec![
            (InjectorCommand::MovePointer { x: 10, y: 10 }, 0),
            (InjectorCommand::PressButton(PlatformButton::Left), 50),
            (InjectorCommand::ReleaseButton(PlatformButton::Left), 120),
        ]
    );
    assert!(session.is_over());
    assert_eq!(session.position(), 3);
}

#[test]
fn playback_at_speed_two_takes_half_the_time() {
    let mut session = settled(&click_macro(), 2);
    let mut dispatched = Vec::new();
    let mut now: u64 = 0;
    loop {
        match session.step(now) {
            PlaybackStep::Sleep(ms) => now += ms,
            PlaybackStep::Dispatch(command) => dispatched.push((command, now)),
            PlaybackStep::Finished => break,
            PlaybackStep::Aborted(error) => panic!("aborted: {:?}", error),
        }
    }
    assert_eq!(
        dispatched,
        vec![
            (InjectorCommand::MovePointer { x: 10, y: 10 }, 0),
            (InjectorCommand::PressButton(PlatformButton::Left), 25),
            (InjectorCommand::ReleaseButton(PlatformButton::Left), 60),
        ]
    );
    assert_eq!(now, 60);
}

#[test]
fn playback_at_the_highest_speed_still_fires_every_event() {
    let mut session = settled(&click_macro(), 255);
    assert_eq!(
        session.step(0),
        PlaybackStep::Dispatch(InjectorCommand::MovePointer { x: 10, y: 10 })
    );
    assert_eq!(
        session.step(0),
        PlaybackStep::Dispatch(InjectorCommand::PressButton(PlatformButton::Left))
    );
    assert_eq!(
        session.step(0),
        PlaybackStep::Dispatch(InjectorCommand::ReleaseButton(PlatformButton::Left))
    );
    assert_eq!(session.step(0), PlaybackStep::Finished);
}

#[test]
fn late_caller_gets_one_event_per_step_in_order() {
    let mut session = settled(&click_macro(), 1);
    assert_eq!(
        session.step(10),
        PlaybackStep::Dispatch(InjectorCommand::MovePointer { x: 10, y: 10 })
    );
    assert_eq!(
        session.step(1_000_000),
        PlaybackStep::Dispatch(InjectorCommand::PressButton(PlatformButton::Left))
    );
    assert_eq!(session.position(), 2);
    assert_eq!(
        session.step(1_000_000),
        PlaybackStep::Dispatch(InjectorCommand::ReleaseButton(PlatformButton::Left))
    );
    assert_eq!(session.step(1_000_000), PlaybackStep::Finished);
    assert!(session.is_over());
}

#[test]
fn playback_clock_does_not_run_backwards() {
    let mut session = settled(&click_macro(), 1);
    assert_eq!(
        session.step(100),
        PlaybackStep::Dispatch(InjectorCommand::MovePointer { x: 10, y: 10 })
    );
    assert_eq!(session.step(149), PlaybackStep::Sleep(1));
    assert_eq!(
        session.step(150),
        PlaybackStep::Dispatch(InjectorCommand::PressButton(PlatformButton::Left))
    );
    assert_eq!(session.step(0), PlaybackStep::Sleep(1));
    assert_eq!(session.step(219), PlaybackStep::Sleep(1));
    assert_eq!(
        session.step(220),
        PlaybackStep::Dispatch(InjectorCommand::ReleaseButton(PlatformButton::Left))
    );
}

#[test]
fn keys_are_pressed_and_released_as_platform_keys() {
    let mut timeline = Timeline::new();
    timeline.append(InputEvent::KeyDown { key: KeyCode::LShift }, 0);
    timeline.append(InputEvent::KeyDown { key: KeyCode::H }, 1);
    timeline.append(InputEvent::KeyUp { key: KeyCode::H }, 2);
    timeline.append(InputEvent::KeyUp { key: KeyCode::LShift }, 3);
    let mut session = settled(&timeline.freeze(), 1);
    assert_eq!(
        session.step(10),
        PlaybackStep::Dispatch(InjectorCommand::PressKey(PlatformKey::Shift))
    );
    assert_eq!(
        session.step(20),
        PlaybackStep::Dispatch(InjectorCommand::PressKey(PlatformKey::Layout('h')))
    );
    assert_eq!(
        session.step(30),
        PlaybackStep::Dispatch(InjectorCommand::ReleaseKey(PlatformKey::Layout('h')))
    );
    assert_eq!(
        session.step(40),
        PlaybackStep::Dispatch(InjectorCommand::ReleaseKey(PlatformKey::Shift))
    );
    assert_eq!(session.step(50), PlaybackStep::Finished);
}

#[test]
fn unsupported_button_aborts_the_rest_of_the_playback() {
    let mut timeline = Timeline::new();
    timeline.append(InputEvent::MouseMove { x: 1, y: 1 }, 0);
    timeline.append(InputEvent::MouseButtonDown { button: ButtonId::Other(4) }, 5);
    timeline.append(InputEvent::MouseMove { x: 2, y: 2 }, 6);
    let mut session = settled(&timeline.freeze(), 1);
    assert_eq!(
        session.step(100),
        PlaybackStep::Dispatch(InjectorCommand::MovePointer { x: 1, y: 1 })
    );
    assert_eq!(
        session.step(200),
        PlaybackStep::Aborted(MappingError::UnsupportedButton(ButtonId::Other(4)))
    );
    assert!(session.is_over());
    assert_eq!(session.position(), 1);
    assert_eq!(session.step(300), PlaybackStep::Finished);
    assert_eq!(session.step(400), PlaybackStep::Finished);
    assert_eq!(session.position(), 1);
}

#[test]
fn unsupported_key_aborts_only_when_it_is_due() {
    let mut timeline = Timeline::new();
    timeline.append(InputEvent::KeyDown { key: KeyCode::Key7 }, 30);
    let mut session = settled(&timeline.freeze(), 1);
    assert_eq!(session.step(1_000), PlaybackStep::Sleep(1));
    assert_eq!(session.step(1_029), PlaybackStep::Sleep(1));
    assert_eq!(
        session.step(1_030),
        PlaybackStep::Aborted(MappingError::UnsupportedKey(KeyCode::Key7))
    );
    assert!(session.is_over());
}

#[test]
fn abort_ends_a_playback_where_it_is() {
    let mut session = settled(&click_macro(), 1);
    assert_eq!(
        session.step(0),
        PlaybackStep::Dispatch(InjectorCommand::MovePointer { x: 10, y: 10 })
    );
    session.abort();
    assert!(session.is_over());
    assert_eq!(session.position(), 1);
    assert_eq!(session.step(1_000), PlaybackStep::Finished);
}

#[test]
fn playback_works_on_its_own_copy_of_the_timeline() {
    let timeline = click_macro();
    let mut first = settled(&timeline, 1);
    let mut second = settled(&timeline, 1);
    assert_eq!(
        first.step(0),
        PlaybackStep::Dispatch(InjectorCommand::MovePointer { x: 10, y: 10 })
    );
    assert_eq!(first.position(), 1);
    assert_eq!(second.position(), 0);
    assert_eq!(
        second.step(0),
        PlaybackStep::Dispatch(InjectorCommand::MovePointer { x: 10, y: 10 })
    );
    assert_eq!(timeline.len(), 3);
}
