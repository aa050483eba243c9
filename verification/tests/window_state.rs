use cursor_icon::CursorIcon;
use winit_wayland_legacy::geometry::{min_window_size, LogicalPosition, LogicalSize};
use winit_wayland_legacy::window_state::WindowState;
use winit_wayland_legacy::window_types::{
    BlurAction, CursorAction, CursorGrabMode, FrameCallbackState, GrabActions, ImeCapabilities,
    ImeCursorArea, ImeRequest, ImeRequestData, ImeRequestError, ImeSurroundingText,
    NotSupportedError, TextInputClientState, RequestError, Theme, ToplevelState,
    TransparencyHint, WindowConfigure, STATE_ACTIVATED, STATE_MAXIMIZED, STATE_SUSPENDED,
    STATE_TILED,
};

fn size(width: u32, height: u32) -> LogicalSize {
    LogicalSize::new(width, height)
}

fn window() -> WindowState {
    WindowState::new(size(800, 600), None, true, true)
}

fn configure_sized(width: u32, height: u32, state: u16) -> WindowConfigure {
    WindowConfigure {
        new_width: Some(width),
        new_height: Some(height),
        suggested_bounds: None,
        state: ToplevelState { bits: state },
    }
}

fn configure_free(bounds: Option<(u32, u32)>, state: u16) -> WindowConfigure {
    WindowConfigure { new_width: None, new_height: None, suggested_bounds: bounds, state: ToplevelState { bits: state } }
}

#[test]
fn new_window_defaults() {
    let mut w = WindowState::new(size(320, 240), Some(Theme::Dark), false, false);
    assert_eq!(w.surface_size(), size(320, 240));
    assert_eq!(w.outer_size(), size(320, 240));
    assert_eq!(w.frame_callback_state(), FrameCallbackState::NotRequested);
    assert_eq!(w.title(), "");
    assert!(!w.is_configured());
    assert!(w.resizable());
    assert!(!w.has_focus());
    assert_eq!(w.theme(), Some(Theme::Dark));
    assert_eq!(w.ime_allowed(), None);
    assert!(w.is_decorated());
    assert!(!w.refresh_frame());
    assert_eq!(w.reload_transparency_hint(), TransparencyHint::OpaqueEverywhere);
    assert_eq!(min_window_size(), size(2, 1));
}

#[test]
fn frame_callback_requested_once_until_received() {
    let mut w = window();
    assert!(w.request_frame_callback());
    assert_eq!(w.frame_callback_state(), FrameCallbackState::Requested);
    assert!(!w.request_frame_callback());
    w.frame_callback_received();
    assert_eq!(w.frame_callback_state(), FrameCallbackState::Received);
    assert!(w.request_frame_callback());
    w.frame_callback_reset();
    assert_eq!(w.frame_callback_state(), FrameCallbackState::NotRequested);
    assert!(w.request_frame_callback());
}

#[test]
fn first_configure_always_resizes() {
    let mut w = window();
    assert!(w.configure(configure_sized(800, 600, 0), None));
    assert!(w.is_configured());
    assert_eq!(w.surface_size(), size(800, 600));
}

#[test]
fn repeated_configure_is_quiet() {
    let mut w = window();
    assert!(w.configure(configure_free(Some((500, 0)), 0), None));
    assert_eq!(w.surface_size(), size(500, 600));
    assert!(!w.configure(configure_free(Some((500, 0)), 0), None));
    assert_eq!(w.surface_size(), size(500, 600));
}

#[test]
fn configure_takes_initial_size() {
    let mut w = window();
    assert!(w.configure(configure_free(None, 0), Some(size(1024, 768))));
    assert_eq!(w.surface_size(), size(1024, 768));
}

#[test]
fn configure_with_size_is_obeyed() {
    let mut w = window();
    w.configure(configure_sized(800, 600, 0), None);
    assert!(w.configure(configure_sized(1920, 1080, STATE_MAXIMIZED), None));
    assert_eq!(w.surface_size(), size(1920, 1080));
}

#[test]
fn activation_alone_does_not_resize() {
    let mut w = window();
    w.configure(configure_sized(800, 600, 0), None);
    assert!(!w.configure(configure_sized(800, 600, STATE_ACTIVATED), None));
    assert!(!w.configure(configure_sized(800, 600, STATE_ACTIVATED | STATE_SUSPENDED), None));
    assert!(w.configure(configure_sized(800, 600, STATE_TILED), None));
}

#[test]
fn unmaximize_falls_back_to_stateless_size() {
    let mut w = window();
    w.configure(configure_sized(640, 480, 0), None);
    w.configure(configure_sized(1920, 1080, STATE_MAXIMIZED), None);
    assert!(w.configure(configure_free(None, 0), None));
    assert_eq!(w.surface_size(), size(640, 480));
}

#[test]
fn bounds_of_zero_mean_no_bound() {
    let mut w = window();
    w.configure(configure_free(Some((0, 100)), 0), None);
    assert_eq!(w.surface_size(), size(800, 100));
}

#[test]
fn request_surface_size_only_when_stateless() {
    let mut w = window();
    assert_eq!(w.request_surface_size(size(300, 200)), size(300, 200));
    w.configure(configure_sized(1920, 1080, STATE_MAXIMIZED), None);
    assert_eq!(w.request_surface_size(size(300, 200)), size(1920, 1080));
    w.configure(configure_sized(640, 480, 0), None);
    assert_eq!(w.request_surface_size(size(300, 200)), size(300, 200));
}

#[test]
fn set_resizable_reports_change() {
    let mut w = window();
    assert!(!w.set_resizable(true));
    assert!(w.set_resizable(false));
    assert!(!w.resizable());
    assert!(!w.set_resizable(false));
    assert!(w.set_resizable(true));
    assert!(w.resizable());
}

#[test]
fn minimum_size_is_raised_to_floor() {
    let mut w = window();
    w.set_min_surface_size(Some(size(0, 0)));
    w.set_min_surface_size(None);
    w.set_max_surface_size(Some(size(10, 10)));
    w.reload_min_max_hints();
    assert_eq!(w.surface_size(), size(800, 600));
}

#[test]
fn short_title_is_kept() {
    let mut w = window();
    w.set_title("Aurora".to_string());
    assert_eq!(w.title(), "Aurora");
}

#[test]
fn long_ascii_title_is_cut_to_limit() {
    let mut w = window();
    w.set_title("a".repeat(1025));
    assert_eq!(w.title().len(), 1024);
    w.set_title("b".repeat(1024));
    assert_eq!(w.title(), "b".repeat(1024));
}

#[test]
fn long_title_is_cut_at_char_boundary() {
    let mut w = window();
    let title = format!("{}é", "a".repeat(1023));
    assert_eq!(title.len(), 1025);
    w.set_title(title);
    assert_eq!(w.title(), "a".repeat(1023));
}

#[test]
fn title_truncation_is_idempotent() {
    let mut w = window();
    w.set_title("日本".repeat(300));
    let first = w.title().to_string();
    assert_eq!(first.len(), 1023);
    w.set_title(first.clone());
    assert_eq!(w.title(), first);
}

#[test]
fn cursor_visibility_and_selection() {
    let mut w = window();
    assert_eq!(w.set_cursor_visible(false), CursorAction::Hide);
    assert_eq!(w.reload_cursor_style(), CursorAction::Hide);
    assert!(!w.set_cursor(CursorIcon::Text));
    assert_eq!(w.set_cursor_visible(true), CursorAction::SetNamed(CursorIcon::Text));
    assert!(w.set_custom_cursor());
    assert_eq!(w.reload_cursor_style(), CursorAction::ApplyCustom);
}

#[test]
fn default_cursor_is_arrow() {
    let mut w = window();
    assert_eq!(w.reload_cursor_style(), CursorAction::SetNamed(CursorIcon::Default));
}

#[test]
fn grab_without_constraints() {
    let mut w = WindowState::new(size(10, 10), None, false, false);
    assert_eq!(
        w.set_cursor_grab(CursorGrabMode::Confined, true),
        Err(RequestError::NotSupported(NotSupportedError::PointerConstraintsUnavailable))
    );
    assert_eq!(
        w.set_cursor_grab(CursorGrabMode::Free, true),
        Ok(GrabActions { release: CursorGrabMode::Free, acquire: CursorGrabMode::Free })
    );
    assert_eq!(
        w.set_cursor_position(),
        Err(RequestError::NotSupported(NotSupportedError::PointerConstraintsUnavailable))
    );
}

#[test]
fn grab_lock_then_confine() {
    let mut w = window();
    assert_eq!(w.set_cursor_position(), Err(RequestError::NotSupported(NotSupportedError::CursorNotLocked)));
    assert_eq!(
        w.set_cursor_grab(CursorGrabMode::Locked, true),
        Ok(GrabActions { release: CursorGrabMode::Free, acquire: CursorGrabMode::Locked })
    );
    assert_eq!(w.set_cursor_position(), Ok(()));
    assert_eq!(
        w.set_cursor_grab(CursorGrabMode::Locked, true),
        Ok(GrabActions { release: CursorGrabMode::Free, acquire: CursorGrabMode::Free })
    );
    assert_eq!(
        w.set_cursor_grab(CursorGrabMode::Confined, true),
        Ok(GrabActions { release: CursorGrabMode::Locked, acquire: CursorGrabMode::Confined })
    );
    assert_eq!(w.set_cursor_position(), Err(RequestError::NotSupported(NotSupportedError::CursorNotLocked)));
}

#[test]
fn grab_waits_for_a_pointer() {
    let mut w = window();
    assert_eq!(
        w.set_cursor_grab(CursorGrabMode::Locked, false),
        Ok(GrabActions { release: CursorGrabMode::Free, acquire: CursorGrabMode::Locked })
    );
    assert_eq!(w.set_cursor_position(), Err(RequestError::NotSupported(NotSupportedError::CursorNotLocked)));
    let (cursor, grab) = w.pointer_entered(7, true);
    assert_eq!(cursor, CursorAction::SetNamed(CursorIcon::Default));
    assert_eq!(grab, GrabActions { release: CursorGrabMode::Free, acquire: CursorGrabMode::Locked });
    assert_eq!(w.set_cursor_position(), Ok(()));
    w.pointer_left(7, &vec![true]);
}

#[test]
fn ime_requests() {
    let mut w = window();
    let caps = ImeCapabilities { bits: 3 };
    let data = ImeRequestData {
        hint_and_purpose: Some((1, 2)),
        cursor_area: Some(ImeCursorArea { x: 10, y: 20, width: 2, height: 16 }),
        surrounding_text: None,
    };
    let new_data = ImeRequestData {
        hint_and_purpose: None,
        cursor_area: None,
        surrounding_text: Some(ImeSurroundingText { text: "hello".to_string(), cursor: 5, anchor: 5 }),
    };
    assert_eq!(w.request_ime_update(ImeRequest::Update(data.clone())), Err(ImeRequestError::NotEnabled));
    assert_eq!(w.text_input_state(), None);
    assert_eq!(w.request_ime_update(ImeRequest::Enable(caps, data.clone())), Ok(Some(true)));
    assert_eq!(w.ime_allowed(), Some(caps));
    assert_eq!(
        w.text_input_state(),
        Some(&TextInputClientState { capabilities: caps, request_data: data.clone() })
    );
    assert_eq!(
        w.request_ime_update(ImeRequest::Enable(caps, new_data.clone())),
        Err(ImeRequestError::AlreadyEnabled)
    );
    assert_eq!(w.text_input_state().map(|s| s.request_data.clone()), Some(data));
    assert_eq!(w.request_ime_update(ImeRequest::Update(new_data.clone())), Ok(None));
    assert_eq!(
        w.text_input_state(),
        Some(&TextInputClientState { capabilities: caps, request_data: new_data })
    );
    assert_eq!(w.request_ime_update(ImeRequest::Disable), Ok(Some(false)));
    assert_eq!(w.ime_allowed(), None);
    assert_eq!(w.text_input_state(), None);
    assert_eq!(w.request_ime_update(ImeRequest::Disable), Ok(None));
}

#[test]
fn blur_needs_manager() {
    let mut w = WindowState::new(size(10, 10), None, true, false);
    assert_eq!(w.set_blur(true), BlurAction::Unavailable);
    assert_eq!(w.set_blur(false), BlurAction::Keep);
    let mut w = window();
    assert_eq!(w.set_blur(true), BlurAction::Create);
    assert_eq!(w.set_blur(true), BlurAction::Keep);
    assert_eq!(w.set_blur(false), BlurAction::Remove);
    assert_eq!(w.set_blur(false), BlurAction::Keep);
}

#[test]
fn transparency_hint() {
    let mut w = window();
    assert_eq!(w.set_transparent(true), TransparencyHint::NoOpaqueRegion);
    assert_eq!(w.reload_transparency_hint(), TransparencyHint::NoOpaqueRegion);
    assert_eq!(w.set_transparent(false), TransparencyHint::OpaqueEverywhere);
}

#[test]
fn focus_follows_seats_and_compositor() {
    let mut w = window();
    assert!(!w.has_focus());
    w.add_seat_focus(3);
    assert!(w.has_focus());
    w.add_seat_focus(4);
    w.remove_seat_focus(&3);
    assert!(w.has_focus());
    w.remove_seat_focus(&4);
    assert!(!w.has_focus());
    w.set_focused(true);
    assert!(!w.has_focus());
    w.add_seat_focus(9);
    w.set_focused(false);
    assert!(w.has_focus());
}

#[test]
fn unmaximize_after_resize_restores_size() {
    let mut w = window();
    w.configure(configure_sized(640, 480, 0), None);
    w.resize(size(700, 500));
    w.configure(configure_sized(1920, 1080, STATE_MAXIMIZED), None);
    assert!(w.configure(configure_free(None, 0), None));
    assert_eq!(w.surface_size(), size(700, 500));
}

#[test]
fn simple_setters() {
    let mut w = window();
    w.set_focused(true);
    w.set_theme(Some(Theme::Light));
    assert_eq!(w.theme(), Some(Theme::Light));
    w.set_decorate(false);
    w.set_decorate(true);
    w.show_window_menu(LogicalPosition { x: 1, y: 2 });
    w.add_seat_focus(3);
    w.remove_seat_focus(&3);
    w.text_input_entered(5);
    w.text_input_entered(5);
    w.text_input_left(&5);
    w.resize(size(50, 40));
    assert_eq!(w.surface_size(), size(50, 40));
}
