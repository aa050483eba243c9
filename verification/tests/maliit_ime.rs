use winit_wayland_legacy::events::{
    DeviceId, ElementState, Ime, InputMethodEvent, Key, KeyCode, KeyEvent, KeyEventExtra,
    KeyLocation, MaliitKey, NamedKey, PhysicalKey, WindowEvent,
};
use winit_wayland_legacy::geometry::LogicalSize;
use winit_wayland_legacy::maliit_ime::{
    ime_events_for_text, is_single_char, kb_input_event_from_key, kb_input_event_from_str,
    maliit_key_to_key_code, maliit_key_to_named_key, MaliitInputMethod,
};

fn plain_extra() -> KeyEventExtra {
    KeyEventExtra { text_with_all_modifiers: None, key_without_modifiers: Key::Dead(None) }
}

fn text_event(s: &str) -> WindowEvent {
    WindowEvent::KeyboardInput {
        device_id: DeviceId,
        event: KeyEvent {
            physical_key: PhysicalKey::Unidentified,
            logical_key: Key::Character(s.to_string()),
            text: Some(s.to_string()),
            repeat: false,
            state: ElementState::Pressed,
            location: KeyLocation::Standard,
            platform_specific: plain_extra(),
        },
        is_synthetic: false,
    }
}

#[test]
fn text_key_event() {
    assert_eq!(kb_input_event_from_str("q"), text_event("q"));
}

#[test]
fn named_key_events() {
    assert_eq!(maliit_key_to_named_key(MaliitKey::Enter), NamedKey::Enter);
    assert_eq!(maliit_key_to_named_key(MaliitKey::Backspace), NamedKey::Backspace);
    assert_eq!(maliit_key_to_key_code(MaliitKey::Enter), KeyCode::Enter);
    assert_eq!(maliit_key_to_key_code(MaliitKey::Backspace), KeyCode::Backspace);
    let e = kb_input_event_from_key(MaliitKey::Backspace, false);
    assert_eq!(
        e,
        WindowEvent::KeyboardInput {
            device_id: DeviceId,
            event: KeyEvent {
                physical_key: PhysicalKey::Code(KeyCode::Backspace),
                logical_key: Key::Named(NamedKey::Backspace),
                text: None,
                repeat: false,
                state: ElementState::Released,
                location: KeyLocation::Standard,
                platform_specific: plain_extra(),
            },
            is_synthetic: false,
        }
    );
}

#[test]
fn single_characters() {
    assert!(is_single_char("a"));
    assert!(is_single_char("é"));
    assert!(is_single_char("日"));
    assert!(!is_single_char(""));
    assert!(!is_single_char("ab"));
}

#[test]
fn one_char_text_is_a_key_press() {
    assert_eq!(ime_events_for_text("é"), vec![text_event("é")]);
}

#[test]
fn longer_text_is_preedit_then_commit() {
    assert_eq!(
        ime_events_for_text("日本"),
        vec![
            WindowEvent::Ime(Ime::Preedit("日本".to_string(), Some((0, 6)))),
            WindowEvent::Ime(Ime::Commit("日本".to_string())),
        ]
    );
    assert_eq!(
        ime_events_for_text(""),
        vec![
            WindowEvent::Ime(Ime::Preedit(String::new(), Some((0, 0)))),
            WindowEvent::Ime(Ime::Commit(String::new())),
        ]
    );
}

#[test]
fn show_starts_once() {
    let mut ime = MaliitInputMethod::new();
    assert!(!ime.is_events_handling_enabled());
    assert!(ime.show());
    assert!(ime.is_events_handling_enabled());
    assert!(!ime.show());
}

#[test]
fn keyboard_area_shrinks_then_hide_restores() {
    let mut ime = MaliitInputMethod::new();
    ime.show();
    let inner = LogicalSize::new(480, 800);
    let out = ime.handle_event(InputMethodEvent::AreaChanged { x: 0, y: 500, width: 480, height: 300 }, inner);
    assert!(out.events.is_empty());
    assert_eq!(out.resize, Some(LogicalSize::new(480, 500)));
    assert_eq!(ime.size(), LogicalSize::new(480, 300));
    let out = ime.hide_keyboard(LogicalSize::new(480, 500));
    assert_eq!(out.resize, Some(inner));
    assert_eq!(out.events, vec![WindowEvent::Ime(Ime::Disabled)]);
    assert!(!ime.is_events_handling_enabled());
    let out = ime.hide_keyboard(inner);
    assert!(out.events.is_empty());
}

#[test]
fn keyboard_gone_disables_and_grows() {
    let mut ime = MaliitInputMethod::new();
    ime.show();
    ime.handle_event(InputMethodEvent::AreaChanged { x: 0, y: 500, width: 480, height: 300 }, LogicalSize::new(480, 800));
    let out = ime.handle_event(InputMethodEvent::AreaChanged { x: 0, y: 0, width: 0, height: 0 }, LogicalSize::new(480, 500));
    assert_eq!(out.resize, Some(LogicalSize::new(480, 800)));
    assert_eq!(out.events, vec![WindowEvent::Ime(Ime::Disabled)]);
    assert!(!ime.is_events_handling_enabled());
    assert_eq!(ime.size(), LogicalSize::new(480, 300));
}

#[test]
fn text_and_key_events_pass_through() {
    let mut ime = MaliitInputMethod::new();
    let inner = LogicalSize::new(1, 1);
    let out = ime.handle_event(InputMethodEvent::Text("x".to_string()), inner);
    assert_eq!(out.events, vec![text_event("x")]);
    assert_eq!(out.resize, None);
    let out = ime.handle_event(InputMethodEvent::Key { key: MaliitKey::Enter, pressed: true }, inner);
    assert_eq!(out.events, vec![kb_input_event_from_key(MaliitKey::Enter, true)]);
}
