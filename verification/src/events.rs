//! The window events that the input method produces, as plain values.
use vstd::prelude::*;

verus! {

/// A key the on-screen keyboard reports by name.
#[derive(Debug, Clone, Copy, PartialEq, Eq, Structural)]
pub enum MaliitKey {
    Enter,
    Backspace,
}

/// A named logical key.
#[derive(Debug, Clone, Copy, PartialEq, Eq, Structural)]
pub enum NamedKey {
    Enter,
    Backspace,
}

/// A physical key code.
#[derive(Debug, Clone, Copy, PartialEq, Eq, Structural)]
pub enum KeyCode {
    Enter,
    Backspace,
}

/// The physical key of a key event.
#[derive(Debug, Clone, Copy, PartialEq, Eq, Structural)]
pub enum PhysicalKey {
    /// A known key code.
    Code(KeyCode),
    /// A key whose native code is unidentified.
    Unidentified,
}

/// The logical key of a key event.
#[derive(Debug, Clone, PartialEq, Eq)]
pub enum Key {
    /// A key that produces the given text.
    Character(String),
    /// A named key.
    Named(NamedKey),
    /// A dead key, with the character it would combine, if known.
    Dead(Option<char>),
}

/// Whether a key is pressed or released.
#[derive(Debug, Clone, Copy, PartialEq, Eq, Structural)]
pub enum ElementState {
    Pressed,
    Released,
}

/// Where on the keyboard a key is.
#[derive(Debug, Clone, Copy, PartialEq, Eq, Structural)]
pub enum KeyLocation {
    Standard,
}

/// The platform specific part of a key event.
#[derive(Debug, Clone, PartialEq, Eq)]
pub struct KeyEventExtra {
    pub text_with_all_modifiers: Option<String>,
    pub key_without_modifiers: Key,
}

/// A keyboard event.
#[derive(Debug, Clone, PartialEq, Eq)]
pub struct KeyEvent {
    pub physical_key: PhysicalKey,
    pub logical_key: Key,
    pub text: Option<String>,
    pub repeat: bool,
    pub state: ElementState,
    pub location: KeyLocation,
    pub platform_specific: KeyEventExtra,
}

/// An input method event for the application.
#[derive(Debug, Clone, PartialEq, Eq)]
pub enum Ime {
    /// Text being composed, with the byte range of the cursor in it.
    Preedit(String, Option<(usize, usize)>),
    /// Text to insert.
    Commit(String),
    /// The input method was disabled.
    Disabled,
}

/// The wayland input device.
#[derive(Debug, Clone, Copy, PartialEq, Eq, Structural)]
pub struct DeviceId;

/// An event for a window.
#[derive(Debug, Clone, PartialEq, Eq)]
pub enum WindowEvent {
    KeyboardInput { device_id: DeviceId, event: KeyEvent, is_synthetic: bool },
    Ime(Ime),
    RedrawRequested,
}

/// An event of the on-screen keyboard.
#[derive(Debug, Clone, PartialEq, Eq)]
pub enum InputMethodEvent {
    /// Text was typed.
    Text(String),
    /// A named key was pressed or released.
    Key { key: MaliitKey, pressed: bool },
    /// The keyboard area changed; a vertical position of zero means that it went away.
    AreaChanged { x: i32, y: i32, width: i32, height: i32 },
}

/// The platform part of the key events of the on-screen keyboard.
pub open spec fn is_plain_extra(extra: KeyEventExtra) -> bool {
    &&& extra.text_with_all_modifiers is None
    &&& extra.key_without_modifiers == Key::Dead(None)
}

/// `e` is the keyboard input that types `input`.
pub open spec fn is_text_key_event(e: WindowEvent, input: Seq<char>) -> bool {
    &&& e matches WindowEvent::KeyboardInput { device_id: _, event, is_synthetic }
    &&& !is_synthetic
    &&& event.physical_key == PhysicalKey::Unidentified
    &&& event.logical_key matches Key::Character(c) && c@ == input
    &&& event.text matches Some(t) && t@ == input
    &&& !event.repeat
    &&& event.state == ElementState::Pressed
    &&& event.location == KeyLocation::Standard
    &&& is_plain_extra(event.platform_specific)
}

/// The named key of a key of the on-screen keyboard.
pub open spec fn spec_named_key(key: MaliitKey) -> NamedKey {
    match key {
        MaliitKey::Enter => NamedKey::Enter,
        MaliitKey::Backspace => NamedKey::Backspace,
    }
}

/// The key code of a key of the on-screen keyboard.
pub open spec fn spec_key_code(key: MaliitKey) -> KeyCode {
    match key {
        MaliitKey::Enter => KeyCode::Enter,
        MaliitKey::Backspace => KeyCode::Backspace,
    }
}

/// `e` is the keyboard input of a named key of the on-screen keyboard.
pub open spec fn is_named_key_event(e: WindowEvent, key: MaliitKey, pressed: bool) -> bool {
    &&& e matches WindowEvent::KeyboardInput { device_id: _, event, is_synthetic }
    &&& !is_synthetic
    &&& event.physical_key == PhysicalKey::Code(spec_key_code(key))
    &&& event.logical_key == Key::Named(spec_named_key(key))
    &&& event.text is None
    &&& !event.repeat
    &&& event.state == if pressed {
        ElementState::Pressed
    } else {
        ElementState::Released
    }
    &&& event.location == KeyLocation::Standard
    &&& is_plain_extra(event.platform_specific)
}

} // verus!
