//! The event model: what one input occurrence is, in the engine's own
//! vocabulary, and how that vocabulary maps to the one an injector speaks.

use vstd::prelude::*;

verus! {

/// A mouse button as the engine names it.
///
/// `Other` carries the listener's index of a button that has no name here.
#[derive(Clone, Copy, Debug, PartialEq, Eq, Hash, Structural)]
pub enum ButtonId {
    Left,
    Middle,
    Right,
    Other(usize),
}

/// A keyboard key as the engine names it. The enumeration is closed: a key
/// that a listener reports is one of these or is not an event at all.
#[derive(Clone, Copy, Debug, PartialEq, Eq, Hash, Structural)]
pub enum KeyCode {
    Key0,
    Key1,
    Key2,
    Key3,
    Key4,
    Key5,
    Key6,
    Key7,
    Key8,
    Key9,
    A,
    B,
    C,
    D,
    E,
    F,
    G,
    H,
    I,
    J,
    K,
    L,
    M,
    N,
    O,
    P,
    Q,
    R,
    S,
    T,
    U,
    V,
    W,
    X,
    Y,
    Z,
    F1,
    F2,
    F3,
    F4,
    F5,
    F6,
    F7,
    F8,
    F9,
    F10,
    F11,
    F12,
    Escape,
    Space,
    LControl,
    RControl,
    LShift,
    RShift,
    LAlt,
    RAlt,
    Meta,
    Enter,
    Up,
    Down,
    Left,
    Right,
    Backspace,
    CapsLock,
    Tab,
    Home,
    End,
    PageUp,
    PageDown,
    Insert,
    Delete,
    Numpad0,
    Numpad1,
    Numpad2,
    Numpad3,
    Numpad4,
    Numpad5,
    Numpad6,
    Numpad7,
    Numpad8,
    Numpad9,
    NumpadSubtract,
    NumpadAdd,
    NumpadDivide,
    NumpadMultiply,
    Grave,
    Minus,
    Equal,
    LeftBracket,
    RightBracket,
    BackSlash,
    Semicolon,
    Apostrophe,
    Comma,
    Dot,
    Slash,
}

/// A key as an injector takes it: a character of the current layout, or one
/// of the named keys.
#[derive(Clone, Copy, Debug, PartialEq, Eq, Hash, Structural)]
pub enum PlatformKey {
    Layout(char),
    Backspace,
    Tab,
    Return,
    Escape,
    Control,
    Shift,
    Alt,
}

/// A mouse button as an injector takes it.
#[derive(Clone, Copy, Debug, PartialEq, Eq, Hash, Structural)]
pub enum PlatformButton {
    Left,
    Middle,
    Right,
}

/// A key or button that the engine can name but no injector can reproduce.
#[derive(Clone, Copy, Debug, PartialEq, Eq, Hash, Structural)]
pub enum MappingError {
    UnsupportedKey(KeyCode),
    UnsupportedButton(ButtonId),
}

/// One input occurrence.
#[derive(Clone, Copy, Debug, PartialEq, Eq, Hash, Structural)]
pub enum InputEvent {
    MouseMove { x: i32, y: i32 },
    MouseButtonDown { button: ButtonId },
    MouseButtonUp { button: ButtonId },
    KeyDown { key: KeyCode },
    KeyUp { key: KeyCode },
}

/// An input occurrence and the time at which it happened, in milliseconds
/// since its recording began.
#[derive(Clone, Copy, Debug, PartialEq, Eq, Hash, Structural)]
pub struct TimedEvent {
    pub event: InputEvent,
    pub offset_ms: u64,
}

/// What an injector is asked to do for one event.
#[derive(Clone, Copy, Debug, PartialEq, Eq, Hash, Structural)]
pub enum InjectorCommand {
    MovePointer { x: i32, y: i32 },
    PressButton(PlatformButton),
    ReleaseButton(PlatformButton),
    PressKey(PlatformKey),
    ReleaseKey(PlatformKey),
}

/// The key that ends a recording while it is held down.
pub const STOP_KEY: KeyCode = KeyCode::F12;

/// The second key that is kept for control and never recorded.
pub const ALTERNATE_CONTROL_KEY: KeyCode = KeyCode::F10;

/// The button that a listener reports under `index`. Listeners count from
/// one: left, middle, right.
pub open spec fn button_of_index(index: usize) -> ButtonId {
    if index == 1 {
        ButtonId::Left
    } else if index == 2 {
        ButtonId::Middle
    } else if index == 3 {
        ButtonId::Right
    } else {
        ButtonId::Other(index)
    }
}

/// The injector's button for `button`, where it has one.
pub open spec fn platform_button_of(button: ButtonId) -> Option<PlatformButton> {
    match button {
        ButtonId::Left => Some(PlatformButton::Left),
        ButtonId::Middle => Some(PlatformButton::Middle),
        ButtonId::Right => Some(PlatformButton::Right),
        ButtonId::Other(_) => None,
    }
}

/// The character that a letter key or the space bar types, where `key` is one.
pub open spec fn layout_char_of(key: KeyCode) -> Option<char> {
    match key {
        KeyCode::A => Some('a'),
        KeyCode::B => Some('b'),
        KeyCode::C => Some('c'),
        KeyCode::D => Some('d'),
        KeyCode::E => Some('e'),
        KeyCode::F => Some('f'),
        KeyCode::G => Some('g'),
        KeyCode::H => Some('h'),
        KeyCode::I => Some('i'),
        KeyCode::J => Some('j'),
        KeyCode::K => Some('k'),
        KeyCode::L => Some('l'),
        KeyCode::M => Some('m'),
        KeyCode::N => Some('n'),
        KeyCode::O => Some('o'),
        KeyCode::P => Some('p'),
        KeyCode::Q => Some('q'),
        KeyCode::R => Some('r'),
        KeyCode::S => Some('s'),
        KeyCode::T => Some('t'),
        KeyCode::U => Some('u'),
        KeyCode::V => Some('v'),
        KeyCode::W => Some('w'),
        KeyCode::X => Some('x'),
        KeyCode::Y => Some('y'),
        KeyCode::Z => Some('z'),
        KeyCode::Space => Some(' '),
        _ => None,
    }
}

/// The injector's key for `key`, where it has one: a layout character for
/// the letters and the space bar, a named key for backspace, tab, enter,
/// escape and the left control, shift and alt keys.
pub open spec fn platform_key_of(key: KeyCode) -> Option<PlatformKey> {
    match layout_char_of(key) {
        Some(c) => Some(PlatformKey::Layout(c)),
        None => match key {
            KeyCode::Backspace => Some(PlatformKey::Backspace),
            KeyCode::Tab => Some(PlatformKey::Tab),
            KeyCode::Enter => Some(PlatformKey::Return),
            KeyCode::Escape => Some(PlatformKey::Escape),
            KeyCode::LControl => Some(PlatformKey::Control),
            KeyCode::LShift => Some(PlatformKey::Shift),
            KeyCode::LAlt => Some(PlatformKey::Alt),
            _ => None,
        },
    }
}

/// Whether `key` is one of the two keys kept for control.
pub open spec fn is_reserved_key(key: KeyCode) -> bool {
    key == STOP_KEY || key == ALTERNATE_CONTROL_KEY
}

/// Whether `event` is a press or release of a key kept for control: such an
/// event is a signal to the engine and no content of a macro.
pub open spec fn is_control_event(event: InputEvent) -> bool {
    match event {
        InputEvent::KeyDown { key } => is_reserved_key(key),
        InputEvent::KeyUp { key } => is_reserved_key(key),
        _ => false,
    }
}

/// What an injector has to do for `event`, or the key or button of it that
/// no injector can reproduce.
pub open spec fn command_of(event: InputEvent) -> Result<InjectorCommand, MappingError> {
    match event {
        InputEvent::MouseMove { x, y } => Ok(InjectorCommand::MovePointer { x, y }),
        InputEvent::MouseButtonDown { button } => match platform_button_of(button) {
            Some(b) => Ok(InjectorCommand::PressButton(b)),
            None => Err(MappingError::UnsupportedButton(button)),
        },
        InputEvent::MouseButtonUp { button } => match platform_button_of(button) {
            Some(b) => Ok(InjectorCommand::ReleaseButton(b)),
            None => Err(MappingError::UnsupportedButton(button)),
        },
        InputEvent::KeyDown { key } => match platform_key_of(key) {
            Some(k) => Ok(InjectorCommand::PressKey(k)),
            None => Err(MappingError::UnsupportedKey(key)),
        },
        InputEvent::KeyUp { key } => match platform_key_of(key) {
            Some(k) => Ok(InjectorCommand::ReleaseKey(k)),
            None => Err(MappingError::UnsupportedKey(key)),
        },
    }
}

impl ButtonId {
    /// Names the button that a listener reports under `index`.
    pub fn from_index(index: usize) -> (button: ButtonId)
        ensures
            button == button_of_index(index),
    {
        match index {
            1 => ButtonId::Left,
            2 => ButtonId::Middle,
            3 => ButtonId::Right,
            _ => ButtonId::Other(index),
        }
    }
}

impl KeyCode {
    /// Tells whether the key is kept for control.
    pub fn is_reserved(&self) -> (reserved: bool)
        ensures
            reserved == is_reserved_key(*self),
    {
        match self {
            KeyCode::F12 => true,
            KeyCode::F10 => true,
            _ => false,
        }
    }
}

impl InputEvent {
    /// Tells whether the event is a control signal and no content of a macro.
    pub fn is_control(&self) -> (control: bool)
        ensures
            control == is_control_event(*self),
    {
        match self {
            InputEvent::KeyDown { key } => key.is_reserved(),
            InputEvent::KeyUp { key } => key.is_reserved(),
            _ => false,
        }
    }
}

/// Maps a key to the injector's vocabulary. A key outside the supported set
/// is refused by name, never replaced by another.
pub fn to_platform_key(key: KeyCode) -> (mapped: Result<PlatformKey, MappingError>)
    ensures
        mapped == match platform_key_of(key) {
            Some(k) => Ok::<PlatformKey, MappingError>(k),
            None => Err(MappingError::UnsupportedKey(key)),
        },
{
    match key {
        KeyCode::A => Ok(PlatformKey::Layout('a')),
        KeyCode::B => Ok(PlatformKey::Layout('b')),
        KeyCode::C => Ok(PlatformKey::Layout('c')),
        KeyCode::D => Ok(PlatformKey::Layout('d')),
        KeyCode::E => Ok(PlatformKey::Layout('e')),
        KeyCode::F => Ok(PlatformKey::Layout('f')),
        KeyCode::G => Ok(PlatformKey::Layout('g')),
        KeyCode::H => Ok(PlatformKey::Layout('h')),
        KeyCode::I => Ok(PlatformKey::Layout('i')),
        KeyCode::J => Ok(PlatformKey::Layout('j')),
        KeyCode::K => Ok(PlatformKey::Layout('k')),
        KeyCode::L => Ok(PlatformKey::Layout('l')),
        KeyCode::M => Ok(PlatformKey::Layout('m')),
        KeyCode::N => Ok(PlatformKey::Layout('n')),
        KeyCode::O => Ok(PlatformKey::Layout('o')),
        KeyCode::P => Ok(PlatformKey::Layout('p')),
        KeyCode::Q => Ok(PlatformKey::Layout('q')),
        KeyCode::R => Ok(PlatformKey::Layout('r')),
        KeyCode::S => Ok(PlatformKey::Layout('s')),
        KeyCode::T => Ok(PlatformKey::Layout('t')),
        KeyCode::U => Ok(PlatformKey::Layout('u')),
        KeyCode::V => Ok(PlatformKey::Layout('v')),
        KeyCode::W => Ok(PlatformKey::Layout('w')),
        KeyCode::X => Ok(PlatformKey::Layout('x')),
        KeyCode::Y => Ok(PlatformKey::Layout('y')),
        KeyCode::Z => Ok(PlatformKey::Layout('z')),
        KeyCode::Space => Ok(PlatformKey::Layout(' ')),
        KeyCode::Backspace => Ok(PlatformKey::Backspace),
        KeyCode::Tab => Ok(PlatformKey::Tab),
        KeyCode::Enter => Ok(PlatformKey::Return),
        KeyCode::Escape => Ok(PlatformKey::Escape),
        KeyCode::LControl => Ok(PlatformKey::Control),
        KeyCode::LShift => Ok(PlatformKey::Shift),
        KeyCode::LAlt => Ok(PlatformKey::Alt),
        _ => Err(MappingError::UnsupportedKey(key)),
    }
}

/// Maps a button to the injector's vocabulary. A button other than left,
/// middle and right is refused.
pub fn to_platform_button(button: ButtonId) -> (mapped: Result<PlatformButton, MappingError>)
    ensures
        mapped == match platform_button_of(button) {
            Some(b) => Ok::<PlatformButton, MappingError>(b),
            None => Err(MappingError::UnsupportedButton(button)),
        },
{
    match button {
        ButtonId::Left => Ok(PlatformButton::Left),
        ButtonId::Middle => Ok(PlatformButton::Middle),
        ButtonId::Right => Ok(PlatformButton::Right),
        ButtonId::Other(_) => Err(MappingError::UnsupportedButton(button)),
    }
}

/// Decides what an injector has to do for `event`.
pub fn command_for(event: &InputEvent) -> (command: Result<InjectorCommand, MappingError>)
    ensures
        command == command_of(*event),
{
    match *event {
        InputEvent::MouseMove { x, y } => Ok(InjectorCommand::MovePointer { x, y }),
        InputEvent::MouseButtonDown { button } => match to_platform_button(button) {
            Ok(b) => Ok(InjectorCommand::PressButton(b)),
            Err(e) => Err(e),
        },
        InputEvent::MouseButtonUp { button } => match to_platform_button(button) {
            Ok(b) => Ok(InjectorCommand::ReleaseButton(b)),
            Err(e) => Err(e),
        },
        InputEvent::KeyDown { key } => match to_platform_key(key) {
            Ok(k) => Ok(InjectorCommand::PressKey(k)),
            Err(e) => Err(e),
        },
        InputEvent::KeyUp { key } => match to_platform_key(key) {
            Ok(k) => Ok(InjectorCommand::ReleaseKey(k)),
            Err(e) => Err(e),
        },
    }
}

/// Two keys that an injector can reproduce are sent as the same key only if
/// they are the same key: no key is ever replayed as another.
pub proof fn lemma_platform_keys_distinct(a: KeyCode, b: KeyCode)
    requires
        platform_key_of(a) is Some,
        platform_key_of(a) == platform_key_of(b),
    ensures
        a == b,
{
}

/// The keys kept for control are outside the set that an injector can
/// reproduce.
pub proof fn lemma_reserved_keys_unsupported(key: KeyCode)
    requires
        is_reserved_key(key),
    ensures
        platform_key_of(key) is None,
{
}

/// A button that came from a listener's index is supported exactly when the
/// index is one, two or three.
pub proof fn lemma_button_index_supported(index: usize)
    ensures
        platform_button_of(button_of_index(index)) is Some <==> 1 <= index <= 3,
{
}

} // verus!
