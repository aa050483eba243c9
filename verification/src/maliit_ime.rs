//! The decisions of the on-screen keyboard (Maliit) input method: which window events
//! its events become, and how the window and keyboard sizes follow it.
use vstd::prelude::*;
use vstd::string::{axiom_spec_iter, next_postcondition};
use vstd::utf8::encode_utf8;

use crate::events::{
    is_named_key_event, is_plain_extra, is_text_key_event, spec_key_code, spec_named_key,
    DeviceId, ElementState, Ime, InputMethodEvent, Key, KeyCode, KeyEvent, KeyEventExtra,
    KeyLocation, MaliitKey, NamedKey, PhysicalKey, WindowEvent,
};
use crate::geometry::LogicalSize;

verus! {

/// The key events of the on-screen keyboard carry no modifier information.
fn plain_extra() -> (extra: KeyEventExtra)
    ensures
        is_plain_extra(extra),
{
    KeyEventExtra { text_with_all_modifiers: None, key_without_modifiers: Key::Dead(None) }
}

/// The keyboard input event that types `input`.
pub fn kb_input_event_from_str(input: &str) -> (e: WindowEvent)
    ensures
        is_text_key_event(e, input@),
{
    let key_event = KeyEvent {
        physical_key: PhysicalKey::Unidentified,
        logical_key: Key::Character(input.to_owned()),
        text: Some(input.to_owned()),
        repeat: false,
        state: ElementState::Pressed,
        location: KeyLocation::Standard,
        platform_specific: plain_extra(),
    };
    WindowEvent::KeyboardInput { device_id: DeviceId, event: key_event, is_synthetic: false }
}

/// The keyboard input event of a named key of the on-screen keyboard.
pub fn kb_input_event_from_key(key: MaliitKey, pressed: bool) -> (e: WindowEvent)
    ensures
        is_named_key_event(e, key, pressed),
{
    let key_event = KeyEvent {
        physical_key: PhysicalKey::Code(maliit_key_to_key_code(key)),
        logical_key: Key::Named(maliit_key_to_named_key(key)),
        text: None,
        repeat: false,
        state: if pressed {
            ElementState::Pressed
        } else {
            ElementState::Released
        },
        location: KeyLocation::Standard,
        platform_specific: plain_extra(),
    };
    WindowEvent::KeyboardInput { device_id: DeviceId, event: key_event, is_synthetic: false }
}

/// The named key of a key of the on-screen keyboard.
pub fn maliit_key_to_named_key(key: MaliitKey) -> (k: NamedKey)
    ensures
        k == spec_named_key(key),
{
    match key {
        MaliitKey::Enter => NamedKey::Enter,
        MaliitKey::Backspace => NamedKey::Backspace,
    }
}

/// The key code of a key of the on-screen keyboard.
pub fn maliit_key_to_key_code(key: MaliitKey) -> (k: KeyCode)
    ensures
        k == spec_key_code(key),
{
    match key {
        MaliitKey::Enter => KeyCode::Enter,
        MaliitKey::Backspace => KeyCode::Backspace,
    }
}

/// Whether `s` is exactly one character.
pub fn is_single_char(s: &str) -> (b: bool)
    ensures
        b == (s@.len() == 1),
{
    broadcast use axiom_spec_iter, next_postcondition;

    let mut chars = s.chars();
    let first = chars.next();
    let second = chars.next();
    first.is_some() && second.is_none()
}

/// The window events that typed text becomes: a single character is a key press; longer
/// (or empty) text is composed and committed at once, with the cursor over all of it.
pub open spec fn text_events_ok(events: Seq<WindowEvent>, txt: Seq<char>) -> bool {
    if txt.len() == 1 {
        events.len() == 1 && is_text_key_event(events[0], txt)
    } else {
        &&& events.len() == 2
        &&& events[0] matches WindowEvent::Ime(Ime::Preedit(p, cursor)) && p@ == txt && cursor
            == Some((0usize, encode_utf8(txt).len() as usize))
        &&& events[1] matches WindowEvent::Ime(Ime::Commit(c)) && c@ == txt
    }
}

/// The window events for text typed on the on-screen keyboard.
pub fn ime_events_for_text(txt: &str) -> (events: Vec<WindowEvent>)
    ensures
        text_events_ok(events@, txt@),
{
    let mut events: Vec<WindowEvent> = Vec::new();
    if is_single_char(txt) {
        events.push(kb_input_event_from_str(txt));
    } else {
        let byte_len = txt.as_bytes().len();
        let preedit = WindowEvent::Ime(Ime::Preedit(txt.to_owned(), Some((0, byte_len))));
        let commit = WindowEvent::Ime(Ime::Commit(txt.to_owned()));
        events.push(preedit);
        events.push(commit);
    }
    events
}

/// The state of the on-screen keyboard as the window sees it.
pub struct MaliitInputMethod {
    is_events_handling_enabled: bool,
    size: LogicalSize,
}

/// The model of a `MaliitInputMethod`.
pub struct MaliitInputMethodView {
    /// Whether its events are being handled (the keyboard is shown).
    pub enabled: bool,
    /// The last size of the keyboard area.
    pub size: LogicalSize,
}

/// What an event of the on-screen keyboard amounts to.
pub struct ImeEventOutcome {
    /// The window events to send, in order.
    pub events: Vec<WindowEvent>,
    /// The new surface size of the window, when it is to be resized.
    pub resize: Option<LogicalSize>,
}

/// The events that tell the application the keyboard's event handling stopped: one
/// `Ime::Disabled` when it was running, none when it had stopped already.
pub open spec fn stop_events(was_enabled: bool) -> Seq<WindowEvent> {
    if was_enabled {
        seq![WindowEvent::Ime(Ime::Disabled)]
    } else {
        Seq::empty()
    }
}

/// The events that tell the application the keyboard's event handling stopped.
fn disabled_events(was_enabled: bool) -> (events: Vec<WindowEvent>)
    ensures
        events@ == stop_events(was_enabled),
{
    let mut events: Vec<WindowEvent> = Vec::new();
    if was_enabled {
        events.push(WindowEvent::Ime(Ime::Disabled));
    }
    proof {
        assert(events@ =~= stop_events(was_enabled));
    }
    events
}

/// The keyboard size that an area change reports.
pub open spec fn area_size(width: i32, height: i32) -> LogicalSize {
    LogicalSize { width: width as u32, height: height as u32 }
}

/// Whether an event can be handled for a window of the given surface size without the
/// window height going out of range.
pub open spec fn event_fits(v: MaliitInputMethodView, event: InputMethodEvent, inner: LogicalSize) -> bool {
    match event {
        InputMethodEvent::AreaChanged { x: _, y, width, height } => if y == 0 {
            inner.height + v.size.height <= u32::MAX
        } else {
            inner.height >= area_size(width, height).height
        },
        _ => true,
    }
}

impl View for MaliitInputMethod {
    type V = MaliitInputMethodView;

    closed spec fn view(&self) -> MaliitInputMethodView {
        MaliitInputMethodView { enabled: self.is_events_handling_enabled, size: self.size }
    }
}

impl MaliitInputMethod {
    /// The keyboard starts hidden, with an empty area.
    pub fn new() -> (s: Self)
        ensures
            !s@.enabled,
            s@.size == (LogicalSize { width: 0, height: 0 }),
    {
        MaliitInputMethod { is_events_handling_enabled: false, size: LogicalSize { width: 0, height: 0 } }
    }

    /// Show the keyboard. Returns `true` when it was hidden: the caller then shows it,
    /// starts handling its events, asks for a redraw and waits for its area.
    pub fn show(&mut self) -> (start: bool)
        ensures
            start == !old(self)@.enabled,
            final(self)@ == (MaliitInputMethodView { enabled: true, ..old(self)@ }),
    {
        if !self.is_events_handling_enabled {
            self.is_events_handling_enabled = true;
            true
        } else {
            false
        }
    }

    /// Hide the keyboard: the window gets back the height of the keyboard area, and the
    /// event handling stops, which the application learns through `Ime::Disabled` if the
    /// events were being handled.
    pub fn hide_keyboard(&mut self, inner_size: LogicalSize) -> (out: ImeEventOutcome)
        requires
            inner_size.height + old(self)@.size.height <= u32::MAX,
        ensures
            final(self)@ == (MaliitInputMethodView { enabled: false, ..old(self)@ }),
            out.events@ == stop_events(old(self)@.enabled),
            out.resize == Some(
                LogicalSize { height: (inner_size.height + old(self)@.size.height) as u32, ..inner_size },
            ),
    {
        let events = disabled_events(self.is_events_handling_enabled);
        self.is_events_handling_enabled = false;
        let mut new_size = inner_size;
        new_size.height = new_size.height + self.size.height;
        ImeEventOutcome { events, resize: Some(new_size) }
    }

    /// The last size of the keyboard area.
    pub fn size(&self) -> (s: LogicalSize)
        ensures
            s == self@.size,
    {
        self.size
    }

    /// Whether the keyboard's events are still being handled.
    pub fn is_events_handling_enabled(&self) -> (b: bool)
        ensures
            b == self@.enabled,
    {
        self.is_events_handling_enabled
    }

    /// Handle an event of the keyboard for a window of surface size `inner_size`.
    pub fn handle_event(&mut self, event: InputMethodEvent, inner_size: LogicalSize) -> (out:
        ImeEventOutcome)
        requires
            event_fits(old(self)@, event, inner_size),
        ensures
            match event {
                InputMethodEvent::Text(txt) => {
                    &&& text_events_ok(out.events@, txt@)
                    &&& out.resize is None
                    &&& final(self)@ == old(self)@
                },
                InputMethodEvent::Key { key, pressed } => {
                    &&& out.events@.len() == 1
                    &&& is_named_key_event(out.events@[0], key, pressed)
                    &&& out.resize is None
                    &&& final(self)@ == old(self)@
                },
                InputMethodEvent::AreaChanged { x: _, y, width, height } => {
                    &&& out.events@ == if y == 0 {
                        stop_events(old(self)@.enabled)
                    } else {
                        Seq::<WindowEvent>::empty()
                    }
                    &&& if y == 0 {
                        &&& final(self)@ == (MaliitInputMethodView { enabled: false, ..old(self)@ })
                        &&& out.resize == Some(
                            LogicalSize {
                                height: (inner_size.height + old(self)@.size.height) as u32,
                                ..inner_size
                            },
                        )
                    } else {
                        &&& final(self)@ == (MaliitInputMethodView {
                            size: area_size(width, height),
                            ..old(self)@
                        })
                        &&& out.resize == Some(
                            LogicalSize {
                                height: (inner_size.height - area_size(width, height).height) as u32,
                                ..inner_size
                            },
                        )
                    }
                },
            },
    {
        match event {
            InputMethodEvent::Text(txt) => {
                ImeEventOutcome { events: ime_events_for_text(txt.as_str()), resize: None }
            },
            InputMethodEvent::Key { key, pressed } => {
                let mut events: Vec<WindowEvent> = Vec::new();
                events.push(kb_input_event_from_key(key, pressed));
                ImeEventOutcome { events, resize: None }
            },
            InputMethodEvent::AreaChanged { x: _, y, width, height } => {
                let mut new_size = inner_size;
                let mut events: Vec<WindowEvent> = Vec::new();
                if y == 0 {
                    events = disabled_events(self.is_events_handling_enabled);
                    self.is_events_handling_enabled = false;
                    new_size.height = new_size.height + self.size.height;
                } else {
                    self.size = LogicalSize { width: width as u32, height: height as u32 };
                    new_size.height = new_size.height - self.size.height;
                }
                ImeEventOutcome { events, resize: Some(new_size) }
            },
        }
    }
}

} // verus!
