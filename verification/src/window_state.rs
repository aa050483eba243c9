//! The state of a window, which is shared with the event loop.
use vstd::prelude::*;
use vstd::utf8::encode_utf8;

use crate::collections::{id_set_insert, id_set_remove, IdSet};
use crate::geometry::{
    min_window_size, LogicalPosition, LogicalSize, MIN_WINDOW_HEIGHT, MIN_WINDOW_WIDTH,
};
use crate::title::{truncate_title, truncated_title_bytes};
use crate::window_types::{
    default_cursor_icon, BlurAction, CursorAction, CursorGrabMode, FrameCallbackState,
    GrabActions, ImeCapabilities, ImeRequest, ImeRequestError, NotSupportedError, RequestError,
    TextInputClientState,
    SelectedCursor, Theme, ToplevelState, TransparencyHint, WindowConfigure, STATE_ACTIVATED,
    STATE_FULLSCREEN, STATE_MAXIMIZED, STATE_SUSPENDED, STATE_TILED,
};

verus! {

/// The state of the cursor grabs.
#[derive(Clone, Copy, Debug)]
struct GrabState {
    /// The grab mode requested by the user.
    user_grab_mode: CursorGrabMode,
    /// The current grab mode.
    current_grab_mode: CursorGrabMode,
}

impl GrabState {
    fn new() -> (s: Self)
        ensures
            s.user_grab_mode == CursorGrabMode::Free,
            s.current_grab_mode == CursorGrabMode::Free,
    {
        GrabState { user_grab_mode: CursorGrabMode::Free, current_grab_mode: CursorGrabMode::Free }
    }
}

/// The state of the window which is being updated from the event loop, as plain values.
///
/// Pointers, seats and text inputs are identified by the protocol ids of their wayland
/// objects.
pub struct WindowState {
    last_configure: Option<WindowConfigure>,
    pointers: Vec<u32>,
    selected_cursor: SelectedCursor,
    cursor_visible: bool,
    has_pointer_constraints: bool,
    theme: Option<Theme>,
    title: String,
    resizable: bool,
    seat_focus: IdSet,
    transparent: bool,
    cursor_grab_mode: GrabState,
    text_input_state: Option<TextInputClientState>,
    text_inputs: Vec<u32>,
    size: LogicalSize,
    decorate: bool,
    min_surface_size: LogicalSize,
    max_surface_size: Option<LogicalSize>,
    stateless_size: LogicalSize,
    frame_callback_state: FrameCallbackState,
    has_blur: bool,
    has_blur_manager: bool,
    has_focus: bool,
}

/// The mathematical model of a `WindowState`.
pub struct WindowStateView {
    /// The last received configure.
    pub last_configure: Option<WindowConfigure>,
    /// The pointers observed on the window.
    pub pointers: Seq<u32>,
    pub selected_cursor: SelectedCursor,
    /// Whether the cursor is visible.
    pub cursor_visible: bool,
    /// Whether the compositor offers pointer constraints to lock or confine the pointer.
    pub has_pointer_constraints: bool,
    pub theme: Option<Theme>,
    /// The current window title.
    pub title: Seq<char>,
    /// Whether the frame is resizable.
    pub resizable: bool,
    /// Seats that have keyboard focus on the window.
    pub seat_focus: Set<u32>,
    /// Whether the window is transparent.
    pub transparent: bool,
    /// The grab mode requested by the user.
    pub user_grab_mode: CursorGrabMode,
    /// The grab mode in effect.
    pub current_grab_mode: CursorGrabMode,
    /// The state of the enabled input method, if it is enabled.
    pub text_input_state: Option<TextInputClientState>,
    /// The text inputs observed on the window.
    pub text_inputs: Seq<u32>,
    /// The surface size of the window.
    pub size: LogicalSize,
    /// Whether we should decorate the frame.
    pub decorate: bool,
    pub min_surface_size: LogicalSize,
    pub max_surface_size: Option<LogicalSize>,
    /// The size of the window when no states were applied to it.
    pub stateless_size: LogicalSize,
    pub frame_callback_state: FrameCallbackState,
    /// Whether a blur of the background is in place.
    pub has_blur: bool,
    /// Whether the compositor offers a blur manager.
    pub has_blur_manager: bool,
    /// Whether the compositor last reported the window as shown and focused.
    pub has_focus: bool,
}

impl WindowStateView {
    /// What every window state satisfies.
    pub open spec fn wf(self) -> bool {
        &&& self.wf_apart_from_sizes()
        &&& last_configure_stateless(self) ==> self.stateless_size == self.size
    }

    /// What every window state satisfies, leaving out how its size and stateless size
    /// relate (which a resize restores).
    pub open spec fn wf_apart_from_sizes(self) -> bool {
        &&& self.min_surface_size.covers_minimum()
        &&& self.has_blur ==> self.has_blur_manager
        &&& self.text_inputs.no_duplicates()
    }
}

/// The minimum surface size that a requested minimum is raised to.
pub open spec fn clamped_min_size(size: Option<LogicalSize>) -> LogicalSize {
    let s = match size {
        Some(s) => s,
        None => min_window_size(),
    };
    LogicalSize {
        width: if s.width < MIN_WINDOW_WIDTH {
            MIN_WINDOW_WIDTH
        } else {
            s.width
        },
        height: if s.height < MIN_WINDOW_HEIGHT {
            MIN_WINDOW_HEIGHT
        } else {
            s.height
        },
    }
}

/// A suggested bound in one dimension, where zero means no bound.
pub open spec fn nonzero_bound(b: u32) -> Option<u32> {
    if b == 0 {
        None
    } else {
        Some(b)
    }
}

/// The bounds for the surface size that a configure suggests.
pub open spec fn spec_surface_size_bounds(configure: WindowConfigure) -> (Option<u32>, Option<u32>) {
    match configure.suggested_bounds {
        Some((w, h)) => (nonzero_bound(w), nonzero_bound(h)),
        None => (None, None),
    }
}

/// `value` limited by an optional bound.
pub open spec fn bounded(value: u32, bound: Option<u32>) -> u32 {
    match bound {
        Some(b) => if value < b {
            value
        } else {
            b
        },
        None => value,
    }
}

/// The size a configure asks for: its own size when it gives both dimensions, else the
/// stateless size (for a stateless configure) or the current size, limited by the
/// suggested bounds.
pub open spec fn configured_size(
    configure: WindowConfigure,
    size: LogicalSize,
    stateless_size: LogicalSize,
) -> LogicalSize {
    if configure.new_width is Some && configure.new_height is Some {
        LogicalSize { width: configure.new_width->0, height: configure.new_height->0 }
    } else {
        let base = if configure.state.spec_is_stateless() {
            stateless_size
        } else {
            size
        };
        let bounds = spec_surface_size_bounds(configure);
        LogicalSize { width: bounded(base.width, bounds.0), height: bounded(base.height, bounds.1) }
    }
}

/// States whose change alone does not call for a resize.
pub open spec fn resize_neutral_states() -> u16 {
    STATE_ACTIVATED | STATE_SUSPENDED
}

/// Whether going from the last configure to a new state calls for a resize: always on the
/// first configure, else when a state other than activated or suspended changed.
pub open spec fn state_change_requires_resize(
    last: Option<WindowConfigure>,
    new_state: ToplevelState,
) -> bool {
    match last {
        None => true,
        Some(c) => (c.state.bits ^ new_state.bits) & !resize_neutral_states() != 0,
    }
}

/// A state change that only touches the activated or suspended states leaves the
/// maximized, fullscreen and tiled states as they were.
pub proof fn lemma_neutral_change_keeps_statelessness(a: ToplevelState, b: ToplevelState)
    requires
        (a.bits ^ b.bits) & !resize_neutral_states() == 0,
    ensures
        a.spec_is_stateless() == b.spec_is_stateless(),
{
    let x = a.bits;
    let y = b.bits;
    assert(((x ^ y) & !(0x0008u16 | 0x0100u16)) == 0 ==> ((x & 1 == 1) == (y & 1 == 1) && (x & 2
        == 2) == (y & 2 == 2) && (x & 0xf0 == 0xf0) == (y & 0xf0 == 0xf0))) by (bit_vector);
}

/// Whether the last configure exists and is stateless.
pub open spec fn last_configure_stateless(v: WindowStateView) -> bool {
    v.last_configure is Some && v.last_configure->0.state.spec_is_stateless()
}

/// The state after a resize to `size`: the stateless size follows when the last configure
/// is stateless.
pub open spec fn resized(v: WindowStateView, size: LogicalSize) -> WindowStateView {
    WindowStateView {
        size,
        stateless_size: if last_configure_stateless(v) {
            size
        } else {
            v.stateless_size
        },
        ..v
    }
}

/// The state once the initial size, if given, is applied.
pub open spec fn with_initial_size(v: WindowStateView, initial: Option<LogicalSize>) -> WindowStateView {
    match initial {
        Some(s) => WindowStateView { size: s, stateless_size: s, ..v },
        None => v,
    }
}

/// What to do with the cursor on the pointers for a visibility and a selected cursor.
pub open spec fn cursor_action_for(visible: bool, selected: SelectedCursor) -> CursorAction {
    if !visible {
        CursorAction::Hide
    } else {
        match selected {
            SelectedCursor::Named(icon) => CursorAction::SetNamed(icon),
            SelectedCursor::Custom => CursorAction::ApplyCustom,
        }
    }
}

/// No grab operation at all.
pub open spec fn no_grab_actions() -> GrabActions {
    GrabActions { release: CursorGrabMode::Free, acquire: CursorGrabMode::Free }
}

/// Whether the old grab is released: there was none, or a live pointer released it.
pub open spec fn grab_released(v: WindowStateView, any_pointer_alive: bool) -> bool {
    v.current_grab_mode == CursorGrabMode::Free || any_pointer_alive
}

/// The outcome of applying a grab mode to the pointers.
pub open spec fn grab_outcome(
    v: WindowStateView,
    mode: CursorGrabMode,
    any_pointer_alive: bool,
) -> Result<GrabActions, RequestError> {
    if !v.has_pointer_constraints {
        if mode == CursorGrabMode::Free {
            Ok(no_grab_actions())
        } else {
            Err(RequestError::NotSupported(NotSupportedError::PointerConstraintsUnavailable))
        }
    } else {
        Ok(
            GrabActions {
                release: v.current_grab_mode,
                acquire: if grab_released(v, any_pointer_alive) {
                    mode
                } else {
                    CursorGrabMode::Free
                },
            },
        )
    }
}

/// The grab mode in effect after applying a grab mode to the pointers: the new mode once
/// the old grab is released and the new one taken (by a live pointer, or trivially for
/// no grab).
pub open spec fn grab_current_after(
    v: WindowStateView,
    mode: CursorGrabMode,
    any_pointer_alive: bool,
) -> CursorGrabMode {
    if v.has_pointer_constraints && grab_released(v, any_pointer_alive) && (mode
        == CursorGrabMode::Free || any_pointer_alive) {
        mode
    } else {
        v.current_grab_mode
    }
}

/// The pointers kept when `removed` leaves: those still alive that are not `removed`.
pub open spec fn kept_pointers(pointers: Seq<u32>, alive: Seq<bool>, removed: u32) -> Seq<u32>
    decreases pointers.len(),
{
    if pointers.len() == 0 {
        Seq::empty()
    } else {
        let rest = kept_pointers(pointers.drop_last(), alive.drop_last(), removed);
        if alive.last() && pointers.last() != removed {
            rest.push(pointers.last())
        } else {
            rest
        }
    }
}

/// The state after the user asks for a surface size: the window is resized when no
/// configure came yet or the last one is stateless, and left as it is otherwise.
pub open spec fn after_request_surface_size(v: WindowStateView, size: LogicalSize) -> WindowStateView {
    if v.last_configure is None || last_configure_stateless(v) {
        resized(v, size)
    } else {
        v
    }
}

/// The state with the frame callback in the given state.
pub open spec fn with_frame_state(v: WindowStateView, f: FrameCallbackState) -> WindowStateView {
    WindowStateView { frame_callback_state: f, ..v }
}

/// Whether a frame callback request is issued: only when none is in flight.
pub open spec fn frame_request_issued(v: WindowStateView) -> bool {
    v.frame_callback_state != FrameCallbackState::Requested
}

/// Whether a configure resizes the window, and the state after it.
pub open spec fn after_configure(
    v: WindowStateView,
    configure: WindowConfigure,
    initial_size: Option<LogicalSize>,
) -> (bool, WindowStateView) {
    let v0 = with_initial_size(v, initial_size);
    let new_size = configured_size(configure, v0.size, v0.stateless_size);
    let v1 = WindowStateView { last_configure: Some(configure), ..v0 };
    let resize = state_change_requires_resize(v.last_configure, configure.state) || new_size
        != v0.size;
    (resize, if resize {
        resized(v1, new_size)
    } else {
        v1
    })
}

/// Whether setting the resizable state applies, and the state after it.
pub open spec fn after_set_resizable(v: WindowStateView, resizable: bool) -> (bool, WindowStateView) {
    if v.resizable == resizable {
        (false, v)
    } else if resizable {
        (
            true,
            WindowStateView {
                resizable: true,
                min_surface_size: clamped_min_size(Some(v.min_surface_size)),
                ..v
            },
        )
    } else {
        (
            true,
            WindowStateView {
                resizable: false,
                min_surface_size: clamped_min_size(Some(v.size)),
                max_surface_size: Some(v.size),
                ..v
            },
        )
    }
}

/// `s` without the first occurrence of `x`.
pub open spec fn remove_first(s: Seq<u32>, x: u32) -> Seq<u32>
    decreases s.len(),
{
    if s.len() == 0 {
        s
    } else if s[0] == x {
        s.drop_first()
    } else {
        seq![s[0]] + remove_first(s.drop_first(), x)
    }
}

/// The state after a text input enters the window.
pub open spec fn after_text_input_entered(v: WindowStateView, id: u32) -> WindowStateView {
    WindowStateView {
        text_inputs: if v.text_inputs.contains(id) {
            v.text_inputs
        } else {
            v.text_inputs.push(id)
        },
        ..v
    }
}

/// The state after a text input leaves the window.
pub open spec fn after_text_input_left(v: WindowStateView, id: u32) -> WindowStateView {
    WindowStateView { text_inputs: remove_first(v.text_inputs, id), ..v }
}

/// The answer to an input method request, and the state after it.
pub open spec fn after_ime_request(v: WindowStateView, request: ImeRequest) -> (
    Result<Option<bool>, ImeRequestError>,
    WindowStateView,
) {
    match request {
        ImeRequest::Enable(capabilities, request_data) => if v.text_input_state is Some {
            (Err(ImeRequestError::AlreadyEnabled), v)
        } else {
            (
                Ok(Some(true)),
                WindowStateView {
                    text_input_state: Some(TextInputClientState { capabilities, request_data }),
                    ..v
                },
            )
        },
        ImeRequest::Update(request_data) => match v.text_input_state {
            Some(state) => (
                Ok(None),
                WindowStateView {
                    text_input_state: Some(TextInputClientState { request_data, ..state }),
                    ..v
                },
            ),
            None => (Err(ImeRequestError::NotEnabled), v),
        },
        ImeRequest::Disable => if v.text_input_state is Some {
            (Ok(Some(false)), WindowStateView { text_input_state: None, ..v })
        } else {
            (Ok(None), v)
        },
    }
}

/// The answer to a cursor grab request, and the state after it.
pub open spec fn after_set_cursor_grab(
    v: WindowStateView,
    mode: CursorGrabMode,
    any_pointer_alive: bool,
) -> (Result<GrabActions, RequestError>, WindowStateView) {
    if v.user_grab_mode == mode {
        (Ok(no_grab_actions()), v)
    } else {
        let r = grab_outcome(v, mode, any_pointer_alive);
        if r is Ok {
            (
                r,
                WindowStateView {
                    current_grab_mode: grab_current_after(v, mode, any_pointer_alive),
                    user_grab_mode: mode,
                    ..v
                },
            )
        } else {
            (r, v)
        }
    }
}

/// What to do about the blur, and the state after it.
pub open spec fn after_set_blur(v: WindowStateView, blurred: bool) -> (BlurAction, WindowStateView) {
    if blurred && !v.has_blur {
        if v.has_blur_manager {
            (BlurAction::Create, WindowStateView { has_blur: true, ..v })
        } else {
            (BlurAction::Unavailable, v)
        }
    } else if !blurred && v.has_blur {
        (BlurAction::Remove, WindowStateView { has_blur: false, ..v })
    } else {
        (BlurAction::Keep, v)
    }
}

/// Without `x`, removing its first occurrence changes nothing; else it removes the
/// element at the first index that holds `x`.
pub proof fn lemma_remove_first(s: Seq<u32>, x: u32, i: int)
    requires
        0 <= i <= s.len(),
        forall|j: int| 0 <= j < i ==> s[j] != x,
        i < s.len() ==> s[i] == x,
    ensures
        i == s.len() ==> remove_first(s, x) == s,
        i < s.len() ==> remove_first(s, x) == s.remove(i),
    decreases s.len(),
{
    if s.len() == 0 {
    } else if s[0] == x {
        assert(i == 0);
        assert(s.drop_first() =~= s.remove(0));
    } else {
        let t = s.drop_first();
        lemma_remove_first(t, x, i - 1);
        if i == s.len() {
            assert(seq![s[0]] + t =~= s);
        } else {
            assert(seq![s[0]] + t.remove(i - 1) =~= s.remove(i));
        }
    }
}

impl View for WindowState {
    type V = WindowStateView;

    open spec fn view(&self) -> WindowStateView {
        self.model()
    }
}

impl WindowState {
    pub closed spec fn model(&self) -> WindowStateView {
        WindowStateView {
            last_configure: self.last_configure,
            pointers: self.pointers@,
            selected_cursor: self.selected_cursor,
            cursor_visible: self.cursor_visible,
            has_pointer_constraints: self.has_pointer_constraints,
            theme: self.theme,
            title: self.title@,
            resizable: self.resizable,
            seat_focus: self.seat_focus@,
            transparent: self.transparent,
            user_grab_mode: self.cursor_grab_mode.user_grab_mode,
            current_grab_mode: self.cursor_grab_mode.current_grab_mode,
            text_input_state: self.text_input_state,
            text_inputs: self.text_inputs@,
            size: self.size,
            decorate: self.decorate,
            min_surface_size: self.min_surface_size,
            max_surface_size: self.max_surface_size,
            stateless_size: self.stateless_size,
            frame_callback_state: self.frame_callback_state,
            has_blur: self.has_blur,
            has_blur_manager: self.has_blur_manager,
            has_focus: self.has_focus,
        }
    }

    /// What every window state satisfies.
    pub open spec fn wf(&self) -> bool {
        self@.wf()
    }

    /// Create new window state, of the given surface size in logical pixels.
    pub fn new(
        initial_size: LogicalSize,
        theme: Option<Theme>,
        has_pointer_constraints: bool,
        has_blur_manager: bool,
    ) -> (s: Self)
        ensures
            s.wf(),
            s@.last_configure is None,
            s@.pointers == Seq::<u32>::empty(),
            s@.selected_cursor is Named,
            s@.cursor_visible,
            s@.has_pointer_constraints == has_pointer_constraints,
            s@.theme == theme,
            s@.title == Seq::<char>::empty(),
            s@.resizable,
            s@.seat_focus == Set::<u32>::empty(),
            !s@.transparent,
            s@.user_grab_mode == CursorGrabMode::Free,
            s@.current_grab_mode == CursorGrabMode::Free,
            s@.text_input_state is None,
            s@.text_inputs == Seq::<u32>::empty(),
            s@.size == initial_size,
            s@.decorate,
            s@.min_surface_size == min_window_size(),
            s@.max_surface_size is None,
            s@.stateless_size == initial_size,
            s@.frame_callback_state == FrameCallbackState::NotRequested,
            !s@.has_blur,
            s@.has_blur_manager == has_blur_manager,
            !s@.has_focus,
    {
        WindowState {
            last_configure: None,
            pointers: Vec::new(),
            selected_cursor: SelectedCursor::Named(default_cursor_icon()),
            cursor_visible: true,
            has_pointer_constraints,
            theme,
            title: String::new(),
            resizable: true,
            seat_focus: IdSet::default(),
            transparent: false,
            cursor_grab_mode: GrabState::new(),
            text_input_state: None,
            text_inputs: Vec::new(),
            size: initial_size,
            decorate: true,
            min_surface_size: min_window_size(),
            max_surface_size: None,
            stateless_size: initial_size,
            frame_callback_state: FrameCallbackState::NotRequested,
            has_blur: false,
            has_blur_manager,
            has_focus: false,
        }
    }

    /// Get the current state of the frame callback.
    pub fn frame_callback_state(&self) -> (s: FrameCallbackState)
        ensures
            s == self@.frame_callback_state,
    {
        self.frame_callback_state
    }

    /// The frame callback was received, but not yet sent to the user.
    pub fn frame_callback_received(&mut self)
        requires
            old(self).wf(),
        ensures
            final(self).wf(),
            final(self)@ == with_frame_state(old(self)@, FrameCallbackState::Received),
    {
        self.frame_callback_state = FrameCallbackState::Received;
    }

    /// Reset the frame callbacks state.
    pub fn frame_callback_reset(&mut self)
        requires
            old(self).wf(),
        ensures
            final(self).wf(),
            final(self)@ == with_frame_state(old(self)@, FrameCallbackState::NotRequested),
    {
        self.frame_callback_state = FrameCallbackState::NotRequested;
    }

    /// Request a frame callback if we don't have one for this window in flight.
    ///
    /// Returns `true` when the caller is to request the frame callback on the surface now.
    pub fn request_frame_callback(&mut self) -> (request: bool)
        requires
            old(self).wf(),
        ensures
            final(self).wf(),
            request == frame_request_issued(old(self)@),
            final(self)@ == with_frame_state(old(self)@, FrameCallbackState::Requested),
    {
        match self.frame_callback_state {
            FrameCallbackState::NotRequested | FrameCallbackState::Received => {
                self.frame_callback_state = FrameCallbackState::Requested;
                true
            },
            FrameCallbackState::Requested => false,
        }
    }

    /// Whether the configure leaves the window free of maximized, fullscreen and tiled state.
    fn is_stateless(configure: &WindowConfigure) -> (b: bool)
        ensures
            b == configure.state.spec_is_stateless(),
    {
        let bits = configure.state.bits;
        !(bits & STATE_MAXIMIZED == STATE_MAXIMIZED || bits & STATE_FULLSCREEN == STATE_FULLSCREEN
            || bits & STATE_TILED == STATE_TILED)
    }

    /// Compute the bounds for the surface size of the surface.
    fn surface_size_bounds(&self, configure: &WindowConfigure) -> (b: (Option<u32>, Option<u32>))
        ensures
            b == spec_surface_size_bounds(*configure),
    {
        match configure.suggested_bounds {
            Some((width, height)) => (
                if width == 0 {
                    None
                } else {
                    Some(width)
                },
                if height == 0 {
                    None
                } else {
                    Some(height)
                },
            ),
            None => (None, None),
        }
    }

    /// Apply a configure from the compositor. `initial_size` is the initial window size the
    /// user asked for, in logical pixels at the current scale, on the first configure only.
    ///
    /// Returns `true` when the window was resized.
    pub fn configure(&mut self, configure: WindowConfigure, initial_size: Option<LogicalSize>) -> (resized_now: bool)
        requires
            old(self).wf(),
        ensures
            final(self).wf(),
            (resized_now, final(self)@) == after_configure(old(self)@, configure, initial_size),
    {
        let ghost v_old = self@;
        if let Some(initial) = initial_size {
            self.size = initial;
            self.stateless_size = initial;
        }
        let ghost v0 = with_initial_size(v_old, initial_size);
        assert(self@ == v0);
        let stateless = Self::is_stateless(&configure);
        let (mut new_size, constrain) = match (configure.new_width, configure.new_height) {
            (Some(width), Some(height)) => (LogicalSize { width, height }, false),
            _ => if stateless {
                (self.stateless_size, true)
            } else {
                (self.size, true)
            },
        };
        if constrain {
            let bounds = self.surface_size_bounds(&configure);
            if let Some(bound_w) = bounds.0 {
                if bound_w < new_size.width {
                    new_size.width = bound_w;
                }
            }
            if let Some(bound_h) = bounds.1 {
                if bound_h < new_size.height {
                    new_size.height = bound_h;
                }
            }
        }
        assert(new_size == configured_size(configure, v0.size, v0.stateless_size));
        let new_bits = configure.state.bits;
        let needs_resize = match &self.last_configure {
            Some(last) => (last.state.bits ^ new_bits) & !(STATE_ACTIVATED | STATE_SUSPENDED) != 0,
            None => true,
        };
        assert(needs_resize == state_change_requires_resize(
            v_old.last_configure,
            configure.state,
        ));
        proof {
            if !needs_resize {
                lemma_neutral_change_keeps_statelessness(v_old.last_configure->0.state, configure.state);
            }
        }
        self.last_configure = Some(configure);
        let ghost v1 = WindowStateView { last_configure: Some(configure), ..v0 };
        assert(self@ == v1);
        if needs_resize || new_size != self.size {
            self.resize(new_size);
            true
        } else {
            false
        }
    }

    /// Resize the window to the new surface size.
    pub fn resize(&mut self, surface_size: LogicalSize)
        requires
            old(self)@.wf_apart_from_sizes(),
        ensures
            final(self).wf(),
            final(self)@ == resized(old(self)@, surface_size),
    {
        self.size = surface_size;
        let stateless = match &self.last_configure {
            Some(c) => Self::is_stateless(c),
            None => false,
        };
        if stateless {
            self.stateless_size = surface_size;
        }
    }

    /// Try to resize the window when the user can do so: when no configure came yet or the
    /// last one is stateless. Returns the surface size afterwards.
    pub fn request_surface_size(&mut self, surface_size: LogicalSize) -> (size: LogicalSize)
        requires
            old(self).wf(),
        ensures
            final(self).wf(),
            final(self)@ == after_request_surface_size(old(self)@, surface_size),
            size == final(self)@.size,
    {
        let may_resize = match &self.last_configure {
            Some(c) => Self::is_stateless(c),
            None => true,
        };
        if may_resize {
            self.resize(surface_size);
        }
        self.size
    }

    /// Get the stored resizable state.
    pub fn resizable(&self) -> (r: bool)
        ensures
            r == self@.resizable,
    {
        self.resizable
    }

    /// Set minimum inner window size, raised to at least the minimum window size.
    pub fn set_min_surface_size(&mut self, size: Option<LogicalSize>)
        requires
            old(self).wf(),
        ensures
            final(self).wf(),
            final(self)@ == (WindowStateView { min_surface_size: clamped_min_size(size), ..old(self)@ }),
    {
        let mut size = match size {
            Some(s) => s,
            None => min_window_size(),
        };
        if size.width < MIN_WINDOW_WIDTH {
            size.width = MIN_WINDOW_WIDTH;
        }
        if size.height < MIN_WINDOW_HEIGHT {
            size.height = MIN_WINDOW_HEIGHT;
        }
        self.min_surface_size = size;
    }

    /// Set maximum inner window size.
    pub fn set_max_surface_size(&mut self, size: Option<LogicalSize>)
        requires
            old(self).wf(),
        ensures
            final(self).wf(),
            final(self)@ == (WindowStateView { max_surface_size: size, ..old(self)@ }),
    {
        self.max_surface_size = size;
    }

    /// Reload the hints for minimum and maximum sizes.
    pub fn reload_min_max_hints(&mut self)
        requires
            old(self).wf(),
        ensures
            final(self).wf(),
            final(self)@ == (WindowStateView {
                min_surface_size: clamped_min_size(Some(old(self)@.min_surface_size)),
                ..old(self)@
            }),
    {
        let min = self.min_surface_size;
        self.set_min_surface_size(Some(min));
        let max = self.max_surface_size;
        self.set_max_surface_size(max);
    }

    /// Set the resizable state on the window.
    ///
    /// Returns `true` when the state was applied. A window that is made not resizable has
    /// its minimum and maximum size pinned to its current size.
    pub fn set_resizable(&mut self, resizable: bool) -> (applied: bool)
        requires
            old(self).wf(),
        ensures
            final(self).wf(),
            (applied, final(self)@) == after_set_resizable(old(self)@, resizable),
    {
        if self.resizable == resizable {
            return false;
        }
        self.resizable = resizable;
        if resizable {
            self.reload_min_max_hints();
        } else {
            let size = self.size;
            self.set_min_surface_size(Some(size));
            self.set_max_surface_size(Some(size));
        }
        true
    }

    /// Record whether the compositor shows the window on screen as the focused one (on
    /// Aurora OS it reports this through the on-screen visibility of the extended surface).
    /// This is kept apart from the seats' keyboard focus, which `has_focus` answers.
    pub fn set_focused(&mut self, focused: bool)
        requires
            old(self).wf(),
        ensures
            final(self).wf(),
            final(self)@ == (WindowStateView { has_focus: focused, ..old(self)@ }),
    {
        self.has_focus = focused;
    }

    /// Whether the window is focused by any seat.
    pub fn has_focus(&self) -> (r: bool)
        ensures
            r == !self@.seat_focus.is_empty(),
    {
        !self.seat_focus.is_empty()
    }

    /// The capabilities of the input method, when it is enabled.
    pub fn ime_allowed(&self) -> (r: Option<ImeCapabilities>)
        ensures
            r == match self@.text_input_state {
                Some(state) => Some(state.capabilities),
                None => None,
            },
    {
        match &self.text_input_state {
            Some(state) => Some(state.capabilities),
            None => None,
        }
    }

    /// The input method state kept for the text inputs, when the input method is enabled.
    pub fn text_input_state(&self) -> (r: Option<&TextInputClientState>)
        ensures
            r == match self@.text_input_state {
                Some(state) => Some(&state),
                None => None,
            },
    {
        self.text_input_state.as_ref()
    }

    /// Get the size of the window.
    pub fn surface_size(&self) -> (r: LogicalSize)
        ensures
            r == self@.size,
    {
        self.size
    }

    /// Whether the window received initial configure event from the compositor.
    pub fn is_configured(&self) -> (r: bool)
        ensures
            r == (self@.last_configure is Some),
    {
        self.last_configure.is_some()
    }

    /// There are only server side decorations with `wl_shell`.
    pub fn is_decorated(&mut self) -> (r: bool)
        ensures
            r,
            final(self)@ == old(self)@,
    {
        true
    }

    /// Get the outer size of the window.
    pub fn outer_size(&self) -> (r: LogicalSize)
        ensures
            r == self@.size,
    {
        self.size
    }

    /// Refresh the decorations frame; with server side decorations the client never needs
    /// to redraw for it.
    pub fn refresh_frame(&mut self) -> (redraw: bool)
        ensures
            !redraw,
            final(self)@ == old(self)@,
    {
        false
    }

    /// Reissue the transparency hint to the compositor: the hint to give the surface.
    pub fn reload_transparency_hint(&self) -> (hint: TransparencyHint)
        ensures
            hint == if self@.transparent {
                TransparencyHint::NoOpaqueRegion
            } else {
                TransparencyHint::OpaqueEverywhere
            },
    {
        if self.transparent {
            TransparencyHint::NoOpaqueRegion
        } else {
            TransparencyHint::OpaqueEverywhere
        }
    }

    /// Mark the window as transparent, returning the hint to give the surface.
    pub fn set_transparent(&mut self, transparent: bool) -> (hint: TransparencyHint)
        requires
            old(self).wf(),
        ensures
            final(self).wf(),
            final(self)@ == (WindowStateView { transparent, ..old(self)@ }),
            hint == if transparent {
                TransparencyHint::NoOpaqueRegion
            } else {
                TransparencyHint::OpaqueEverywhere
            },
    {
        self.transparent = transparent;
        self.reload_transparency_hint()
    }

    /// Set the CSD theme.
    pub fn set_theme(&mut self, theme: Option<Theme>)
        requires
            old(self).wf(),
        ensures
            final(self).wf(),
            final(self)@ == (WindowStateView { theme, ..old(self)@ }),
    {
        self.theme = theme;
    }

    /// The current theme for CSD decorations.
    pub fn theme(&self) -> (r: Option<Theme>)
        ensures
            r == self@.theme,
    {
        self.theme
    }

    /// Whether show or hide client side decorations.
    pub fn set_decorate(&mut self, decorate: bool)
        requires
            old(self).wf(),
        ensures
            final(self).wf(),
            final(self)@ == (WindowStateView { decorate, ..old(self)@ }),
    {
        if decorate == self.decorate {
            return;
        }
        self.decorate = decorate;
    }

    /// Show the window menu; `wl_shell` has none, so nothing happens.
    pub fn show_window_menu(&self, _position: LogicalPosition)
        ensures
            true,
    {
    }

    /// Set the window title to a new value, truncated to at most `MAX_TITLE_BYTES` bytes
    /// of UTF-8 at a character boundary.
    pub fn set_title(&mut self, title: String)
        requires
            old(self).wf(),
        ensures
            final(self).wf(),
            encode_utf8(final(self)@.title) == truncated_title_bytes(encode_utf8(title@)),
            final(self)@.title == title@.take(final(self)@.title.len() as int),
            final(self)@ == (WindowStateView { title: final(self)@.title, ..old(self)@ }),
    {
        self.title = truncate_title(title);
    }

    /// Get the cached title.
    pub fn title(&self) -> (t: &str)
        ensures
            t@ == self@.title,
    {
        self.title.as_str()
    }

    /// Add seat focus for the window.
    pub fn add_seat_focus(&mut self, seat: u32)
        requires
            old(self).wf(),
        ensures
            final(self).wf(),
            final(self)@ == (WindowStateView {
                seat_focus: old(self)@.seat_focus.insert(seat),
                ..old(self)@
            }),
    {
        id_set_insert(&mut self.seat_focus, seat);
    }

    /// Remove seat focus from the window.
    pub fn remove_seat_focus(&mut self, seat: &u32)
        requires
            old(self).wf(),
        ensures
            final(self).wf(),
            final(self)@ == (WindowStateView {
                seat_focus: old(self)@.seat_focus.remove(*seat),
                ..old(self)@
            }),
    {
        id_set_remove(&mut self.seat_focus, seat);
    }

    /// Reload the cursor style on the given window: what to do with the cursor on the
    /// pointers.
    pub fn reload_cursor_style(&mut self) -> (action: CursorAction)
        requires
            old(self).wf(),
        ensures
            final(self).wf(),
            final(self)@ == old(self)@,
            action == cursor_action_for(old(self)@.cursor_visible, old(self)@.selected_cursor),
    {
        if self.cursor_visible {
            match self.selected_cursor {
                SelectedCursor::Named(icon) => {
                    self.set_cursor(icon);
                    CursorAction::SetNamed(icon)
                },
                SelectedCursor::Custom => CursorAction::ApplyCustom,
            }
        } else {
            let visible = self.cursor_visible;
            self.set_cursor_visible(visible)
        }
    }

    /// Set the cursor icon. Returns `true` when the icon is to be shown on the pointers now,
    /// that is when the cursor is visible.
    pub fn set_cursor(&mut self, cursor_icon: cursor_icon::CursorIcon) -> (apply: bool)
        requires
            old(self).wf(),
        ensures
            final(self).wf(),
            final(self)@ == (WindowStateView {
                selected_cursor: SelectedCursor::Named(cursor_icon),
                ..old(self)@
            }),
            apply == old(self)@.cursor_visible,
    {
        self.selected_cursor = SelectedCursor::Named(cursor_icon);
        self.cursor_visible
    }

    /// Select the custom cursor image that the caller keeps. Returns `true` when it is to be
    /// attached to the pointers now, that is when the cursor is visible.
    pub fn set_custom_cursor(&mut self) -> (apply: bool)
        requires
            old(self).wf(),
        ensures
            final(self).wf(),
            final(self)@ == (WindowStateView { selected_cursor: SelectedCursor::Custom, ..old(self)@ }),
            apply == old(self)@.cursor_visible,
    {
        let apply = self.cursor_visible;
        self.selected_cursor = SelectedCursor::Custom;
        apply
    }

    /// Set the visibility state of the cursor: what to do with the cursor on the pointers.
    pub fn set_cursor_visible(&mut self, cursor_visible: bool) -> (action: CursorAction)
        requires
            old(self).wf(),
        ensures
            final(self).wf(),
            final(self)@ == (WindowStateView { cursor_visible, ..old(self)@ }),
            action == cursor_action_for(cursor_visible, old(self)@.selected_cursor),
    {
        self.cursor_visible = cursor_visible;
        if self.cursor_visible {
            match self.selected_cursor {
                SelectedCursor::Named(icon) => {
                    self.set_cursor(icon);
                    CursorAction::SetNamed(icon)
                },
                SelectedCursor::Custom => CursorAction::ApplyCustom,
            }
        } else {
            CursorAction::Hide
        }
    }

    /// Set the grabbing state on the surface. `any_pointer_alive` tells whether some pointer
    /// over the window is still alive, which the operations run on.
    fn set_cursor_grab_inner(&mut self, mode: CursorGrabMode, any_pointer_alive: bool) -> (r:
        Result<GrabActions, RequestError>)
        requires
            old(self).wf(),
        ensures
            final(self).wf(),
            r == grab_outcome(old(self)@, mode, any_pointer_alive),
            final(self)@ == (WindowStateView {
                current_grab_mode: grab_current_after(old(self)@, mode, any_pointer_alive),
                ..old(self)@
            }),
    {
        if !self.has_pointer_constraints {
            if mode == CursorGrabMode::Free {
                return Ok(GrabActions { release: CursorGrabMode::Free, acquire: CursorGrabMode::Free });
            } else {
                return Err(RequestError::NotSupported(NotSupportedError::PointerConstraintsUnavailable));
            }
        }
        let release = self.cursor_grab_mode.current_grab_mode;
        let unset_old = match release {
            CursorGrabMode::Free => true,
            CursorGrabMode::Confined | CursorGrabMode::Locked => any_pointer_alive,
        };
        if !unset_old {
            return Ok(GrabActions { release, acquire: CursorGrabMode::Free });
        }
        let set_mode = match mode {
            CursorGrabMode::Locked | CursorGrabMode::Confined => any_pointer_alive,
            CursorGrabMode::Free => true,
        };
        if set_mode {
            self.cursor_grab_mode.current_grab_mode = mode;
        }
        Ok(GrabActions { release, acquire: mode })
    }

    /// Set the cursor grabbing state on the top-level. `any_pointer_alive` tells whether some
    /// pointer over the window is still alive. On success the requested mode becomes the
    /// user's grab mode, and the result lists the grab operations to run on the pointers.
    pub fn set_cursor_grab(&mut self, mode: CursorGrabMode, any_pointer_alive: bool) -> (r:
        Result<GrabActions, RequestError>)
        requires
            old(self).wf(),
        ensures
            final(self).wf(),
            (r, final(self)@) == after_set_cursor_grab(old(self)@, mode, any_pointer_alive),
    {
        if self.cursor_grab_mode.user_grab_mode == mode {
            return Ok(GrabActions { release: CursorGrabMode::Free, acquire: CursorGrabMode::Free });
        }
        let actions = match self.set_cursor_grab_inner(mode, any_pointer_alive) {
            Ok(actions) => actions,
            Err(e) => return Err(e),
        };
        self.cursor_grab_mode.user_grab_mode = mode;
        Ok(actions)
    }

    /// Check that the cursor position can be set: only for a locked pointer, when pointer
    /// constraints are available. On success the caller moves the locked cursor.
    pub fn set_cursor_position(&self) -> (r: Result<(), RequestError>)
        ensures
            r == if !self@.has_pointer_constraints {
                Err(RequestError::NotSupported(NotSupportedError::PointerConstraintsUnavailable))
            } else if self@.current_grab_mode != CursorGrabMode::Locked {
                Err(RequestError::NotSupported(NotSupportedError::CursorNotLocked))
            } else {
                Ok(())
            },
    {
        if !self.has_pointer_constraints {
            return Err(RequestError::NotSupported(NotSupportedError::PointerConstraintsUnavailable));
        }
        if self.cursor_grab_mode.current_grab_mode != CursorGrabMode::Locked {
            return Err(RequestError::NotSupported(NotSupportedError::CursorNotLocked));
        }
        Ok(())
    }

    /// Register pointer on the top-level. Returns what to do with the cursor on the pointers
    /// and the grab operations that restore the user's grab mode (none if that fails).
    pub fn pointer_entered(&mut self, pointer: u32, any_pointer_alive: bool) -> (r: (
        CursorAction,
        GrabActions,
    ))
        requires
            old(self).wf(),
        ensures
            final(self).wf(),
            ({
                let v1 = WindowStateView { pointers: old(self)@.pointers.push(pointer), ..old(self)@ };
                let mode = old(self)@.user_grab_mode;
                &&& r.0 == cursor_action_for(old(self)@.cursor_visible, old(self)@.selected_cursor)
                &&& r.1 == match grab_outcome(v1, mode, any_pointer_alive) {
                    Ok(a) => a,
                    Err(_) => no_grab_actions(),
                }
                &&& final(self)@ == (WindowStateView {
                    current_grab_mode: grab_current_after(v1, mode, any_pointer_alive),
                    ..v1
                })
            }),
    {
        self.pointers.push(pointer);
        let cursor = self.reload_cursor_style();
        let mode = self.cursor_grab_mode.user_grab_mode;
        let grab = match self.set_cursor_grab_inner(mode, any_pointer_alive) {
            Ok(actions) => actions,
            Err(_) => GrabActions { release: CursorGrabMode::Free, acquire: CursorGrabMode::Free },
        };
        (cursor, grab)
    }

    /// Pointer has left the top-level. `alive` tells, for each pointer in order, whether it
    /// is still alive; the pointers kept are the live ones other than `removed`.
    pub fn pointer_left(&mut self, removed: u32, alive: &Vec<bool>)
        requires
            old(self).wf(),
            alive@.len() == old(self)@.pointers.len(),
        ensures
            final(self).wf(),
            final(self)@ == (WindowStateView {
                pointers: kept_pointers(old(self)@.pointers, alive@, removed),
                ..old(self)@
            }),
    {
        let mut new_pointers: Vec<u32> = Vec::new();
        let n = self.pointers.len();
        let mut i: usize = 0;
        while i < n
            invariant
                self.wf(),
                self@ == old(self)@,
                n == self.pointers@.len(),
                alive@.len() == n,
                i <= n,
                new_pointers@ == kept_pointers(self.pointers@.take(i as int), alive@.take(i as int), removed),
            decreases n - i,
        {
            proof {
                assert(self.pointers@.take(i + 1).drop_last() =~= self.pointers@.take(i as int));
                assert(alive@.take(i + 1).drop_last() =~= alive@.take(i as int));
            }
            if alive[i] && self.pointers[i] != removed {
                new_pointers.push(self.pointers[i]);
            }
            i = i + 1;
        }
        proof {
            assert(self.pointers@.take(n as int) =~= self.pointers@);
            assert(alive@.take(n as int) =~= alive@);
        }
        self.pointers = new_pointers;
    }

    /// Register text input on the top-level, unless it is registered already.
    pub fn text_input_entered(&mut self, text_input: u32)
        requires
            old(self).wf(),
        ensures
            final(self).wf(),
            final(self)@ == after_text_input_entered(old(self)@, text_input),
    {
        let n = self.text_inputs.len();
        let mut i: usize = 0;
        while i < n
            invariant
                self.wf(),
                self@ == old(self)@,
                n == self.text_inputs@.len(),
                i <= n,
                forall|j: int| 0 <= j < i ==> self.text_inputs@[j] != text_input,
            decreases n - i,
        {
            if self.text_inputs[i] == text_input {
                return;
            }
            i = i + 1;
        }
        self.text_inputs.push(text_input);
    }

    /// The text input left the top-level.
    pub fn text_input_left(&mut self, text_input: &u32)
        requires
            old(self).wf(),
        ensures
            final(self).wf(),
            !final(self)@.text_inputs.contains(*text_input),
            final(self)@ == after_text_input_left(old(self)@, *text_input),
    {
        let n = self.text_inputs.len();
        let mut i: usize = 0;
        while i < n
            invariant
                self.wf(),
                self@ == old(self)@,
                n == self.text_inputs@.len(),
                i <= n,
                forall|j: int| 0 <= j < i ==> self.text_inputs@[j] != *text_input,
            decreases n - i,
        {
            if self.text_inputs[i] == *text_input {
                let ghost before = self.text_inputs@;
                self.text_inputs.remove(i);
                proof {
                    assert(self.text_inputs@ == before.remove(i as int));
                    lemma_remove_first(before, *text_input, i as int);
                    assert forall|a: int, b: int|
                        0 <= a < self.text_inputs@.len() && 0 <= b < self.text_inputs@.len()
                            && a != b implies self.text_inputs@[a] != self.text_inputs@[b] by {
                        let a0 = if a < i { a } else { a + 1 };
                        let b0 = if b < i { b } else { b + 1 };
                        assert(self.text_inputs@[a] == before[a0]);
                        assert(self.text_inputs@[b] == before[b0]);
                    }
                    assert forall|k: int| 0 <= k < self.text_inputs@.len() implies
                        self.text_inputs@[k] != *text_input by {
                        let k0 = if k < i { k } else { k + 1 };
                        assert(self.text_inputs@[k] == before[k0]);
                        assert(before[i as int] == *text_input);
                    }
                }
                return;
            }
            i = i + 1;
        }
        proof {
            assert(!self.text_inputs@.contains(*text_input));
            lemma_remove_first(self.text_inputs@, *text_input, n as int);
        }
    }

    /// Atomically update input method state.
    ///
    /// Returns `None` if an input method state haven't changed. Alternatively `Some(true)` and
    /// `Some(false)` is returned respectfully.
    pub fn request_ime_update(&mut self, request: ImeRequest) -> (r: Result<
        Option<bool>,
        ImeRequestError,
    >)
        requires
            old(self).wf(),
        ensures
            final(self).wf(),
            (r, final(self)@) == after_ime_request(old(self)@, request),
    {
        match request {
            ImeRequest::Enable(capabilities, request_data) => {
                if self.text_input_state.is_some() {
                    return Err(ImeRequestError::AlreadyEnabled);
                }
                self.text_input_state = Some(TextInputClientState { capabilities, request_data });
                Ok(Some(true))
            },
            ImeRequest::Update(request_data) => {
                match &mut self.text_input_state {
                    Some(state) => {
                        state.request_data = request_data;
                    },
                    None => return Err(ImeRequestError::NotEnabled),
                }
                Ok(None)
            },
            ImeRequest::Disable => {
                if self.text_input_state.is_none() {
                    return Ok(None);
                }
                self.text_input_state = None;
                Ok(Some(false))
            },
        }
    }

    /// Make window background blurred or not; returns what to do about the blur.
    pub fn set_blur(&mut self, blurred: bool) -> (action: BlurAction)
        requires
            old(self).wf(),
        ensures
            final(self).wf(),
            (action, final(self)@) == after_set_blur(old(self)@, blurred),
    {
        if blurred && !self.has_blur {
            if self.has_blur_manager {
                self.has_blur = true;
                BlurAction::Create
            } else {
                BlurAction::Unavailable
            }
        } else if !blurred && self.has_blur {
            self.has_blur = false;
            BlurAction::Remove
        } else {
            BlurAction::Keep
        }
    }
}

} // verus!
