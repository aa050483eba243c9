//! Properties that span several operations of the library.
use vstd::prelude::*;
use vstd::utf8::{is_char_boundary, valid_utf8};

use crate::geometry::LogicalSize;
use crate::maliit_ime::{area_size, MaliitInputMethodView};
use crate::qvariant::{qvariant_bytes, QVariant, QMETATYPE_BOOL};
use crate::title::{lemma_title_cut_point, title_cut_point, truncated_title_bytes, MAX_TITLE_BYTES};
use crate::window_state::{
    after_request_surface_size, cursor_action_for, grab_current_after, grab_outcome,
    after_configure, after_ime_request, after_set_blur, after_set_cursor_grab,
    after_set_resizable, after_text_input_entered, after_text_input_left, bounded,
    clamped_min_size, configured_size, frame_request_issued, kept_pointers,
    last_configure_stateless, no_grab_actions, remove_first, resize_neutral_states,
    with_frame_state, WindowStateView,
};
use crate::window_types::{
    CursorAction, GrabActions, SelectedCursor, STATE_FULLSCREEN, STATE_TILED, ToplevelState, STATE_ACTIVATED, STATE_MAXIMIZED, STATE_SUSPENDED, BlurAction, CursorGrabMode, FrameCallbackState, ImeCapabilities, ImeRequest, ImeRequestData, ImeRequestError,
    TextInputClientState,
    WindowConfigure,
};

verus! {

/// At most one frame callback is in flight: once one is requested, asking again issues
/// nothing until the callback is received or reset, after which a request is issued again.
pub proof fn law_one_frame_callback_in_flight(v: WindowStateView)
    ensures
        ({
            let v1 = with_frame_state(v, FrameCallbackState::Requested);
            &&& !frame_request_issued(v1)
            &&& with_frame_state(v1, FrameCallbackState::Requested) == v1
            &&& frame_request_issued(with_frame_state(v1, FrameCallbackState::Received))
            &&& frame_request_issued(with_frame_state(v1, FrameCallbackState::NotRequested))
        }),
{
}

/// A minimum surface size is never below the minimum window size, and raising it again
/// changes nothing.
pub proof fn law_min_surface_size_floor(size: Option<LogicalSize>)
    ensures
        clamped_min_size(size).covers_minimum(),
        clamped_min_size(Some(clamped_min_size(size))) == clamped_min_size(size),
{
}

/// Reloading the minimum and maximum size hints leaves a window state as it is.
pub proof fn law_reload_min_max_hints_keeps_state(v: WindowStateView)
    requires
        v.wf(),
    ensures
        clamped_min_size(Some(v.min_surface_size)) == v.min_surface_size,
{
}

/// Setting the resizable state to what it already is reports that nothing was applied
/// and changes nothing.
pub proof fn law_set_resizable_idempotent(v: WindowStateView, resizable: bool)
    ensures
        ({
            let (_, v1) = after_set_resizable(v, resizable);
            let (applied2, v2) = after_set_resizable(v1, resizable);
            !applied2 && v2 == v1
        }),
{
}

/// A window made not resizable has its minimum and maximum size pinned to its size.
pub proof fn law_not_resizable_pins_size(v: WindowStateView)
    requires
        v.wf(),
        v.resizable,
        v.size.covers_minimum(),
    ensures
        ({
            let (applied, v1) = after_set_resizable(v, false);
            &&& applied
            &&& v1.min_surface_size == v.size
            &&& v1.max_surface_size == Some(v.size)
        }),
{
}

/// A limited title fits in `MAX_TITLE_BYTES` bytes, ends on a character boundary, keeps
/// every byte of a title that fits, and limiting it again changes nothing.
pub proof fn law_title_truncation(bytes: Seq<u8>)
    requires
        valid_utf8(bytes),
    ensures
        truncated_title_bytes(bytes).len() <= MAX_TITLE_BYTES,
        truncated_title_bytes(bytes) == bytes.subrange(0, truncated_title_bytes(bytes).len() as int),
        is_char_boundary(bytes, truncated_title_bytes(bytes).len() as int),
        bytes.len() <= MAX_TITLE_BYTES ==> truncated_title_bytes(bytes) == bytes,
        truncated_title_bytes(truncated_title_bytes(bytes)) == truncated_title_bytes(bytes),
{
    lemma_title_cut_point(bytes);
    let t = truncated_title_bytes(bytes);
    assert(t.len() == title_cut_point(bytes));
    assert(bytes.len() <= MAX_TITLE_BYTES ==> t =~= bytes);
    assert(t.subrange(0, t.len() as int) =~= t);
}

/// The first configure always resizes the window, and any configure leaves the window
/// configured.
pub proof fn law_first_configure_resizes(
    v: WindowStateView,
    configure: WindowConfigure,
    initial_size: Option<LogicalSize>,
)
    ensures
        v.last_configure is None ==> after_configure(v, configure, initial_size).0,
        after_configure(v, configure, initial_size).1.last_configure == Some(configure),
{
}


/// A change of only the activated or suspended states never calls for a resize.
pub proof fn law_activation_alone_keeps_size(last: WindowConfigure, flips: u16)
    ensures
        !state_change_requires_resize_of(
            last,
            ToplevelState { bits: last.state.bits ^ (flips & (STATE_ACTIVATED | STATE_SUSPENDED)) },
        ),
{
    let a = last.state.bits;
    assert(((a ^ (a ^ (flips & (0x0008u16 | 0x0100u16)))) & !(0x0008u16 | 0x0100u16)) == 0)
        by (bit_vector);
}

/// Whether a new state, after the given configure, calls for a resize.
pub open spec fn state_change_requires_resize_of(last: WindowConfigure, new_state: ToplevelState) -> bool {
    crate::window_state::state_change_requires_resize(Some(last), new_state)
}

/// A window whose last configure left it stateless, once maximized, returns to the size it
/// had when the compositor lets it choose again: the configure that ends the maximized
/// state resizes it back to its stateless size.
pub proof fn law_unmaximize_restores_size(
    v: WindowStateView,
    maximized: WindowConfigure,
    restored: WindowConfigure,
)
    requires
        v.wf(),
        last_configure_stateless(v),
        maximized.state.has_all(STATE_MAXIMIZED),
        restored.new_width is None,
        restored.suggested_bounds is None,
        restored.state.spec_is_stateless(),
    ensures
        ({
            let v1 = after_configure(v, maximized, None).1;
            let (resize, v2) = after_configure(v1, restored, None);
            resize && v2.size == v.size
        }),
{
    let m = maximized.state.bits;
    let r = restored.state.bits;
    assert((m & 1 == 1 && !(r & 1 == 1)) ==> ((m ^ r) & !(0x0008u16 | 0x0100u16)) != 0)
        by (bit_vector);
}

/// A configure with both dimensions sizes the surface to exactly them.
pub proof fn law_configure_size_is_obeyed(
    v: WindowStateView,
    configure: WindowConfigure,
    initial_size: Option<LogicalSize>,
)
    requires
        configure.new_width is Some,
        configure.new_height is Some,
    ensures
        after_configure(v, configure, initial_size).1.size == (LogicalSize {
            width: configure.new_width->0,
            height: configure.new_height->0,
        }),
{
}

/// A bound applied twice is the bound applied once.
proof fn lemma_bounded_twice(value: u32, bound: Option<u32>)
    ensures
        bounded(bounded(value, bound), bound) == bounded(value, bound),
{
}

/// A configure that repeats the last one neither resizes the window nor changes its state.
pub proof fn law_repeated_configure_is_quiet(
    v: WindowStateView,
    configure: WindowConfigure,
    initial_size: Option<LogicalSize>,
)
    ensures
        ({
            let (_, v1) = after_configure(v, configure, initial_size);
            let (resize2, v2) = after_configure(v1, configure, None);
            !resize2 && v2 == v1
        }),
{
    let bits = configure.state.bits;
    let mask = resize_neutral_states();
    assert((bits ^ bits) & !mask == 0) by (bit_vector);
    let bounds = crate::window_state::spec_surface_size_bounds(configure);
    let v0 = crate::window_state::with_initial_size(v, initial_size);
    let n = configured_size(configure, v0.size, v0.stateless_size);
    lemma_bounded_twice(v0.size.width, bounds.0);
    lemma_bounded_twice(v0.size.height, bounds.1);
    lemma_bounded_twice(v0.stateless_size.width, bounds.0);
    lemma_bounded_twice(v0.stateless_size.height, bounds.1);
    let (_, v1) = after_configure(v, configure, initial_size);
    assert(configured_size(configure, v1.size, v1.stateless_size) == v1.size);
    assert((WindowStateView { last_configure: Some(configure), ..v1 }) == v1);
}

/// `x` occurs in `remove_first(s, x)` only if it occurred twice in `s`.
proof fn lemma_remove_first_push(s: Seq<u32>, x: u32)
    requires
        !s.contains(x),
    ensures
        remove_first(s.push(x), x) == s,
    decreases s.len(),
{
    if s.len() == 0 {
        assert(s.push(x).drop_first() =~= s);
    } else {
        let t = s.drop_first();
        assert(!t.contains(x)) by {
            if t.contains(x) {
                let k = choose|k: int| 0 <= k < t.len() && t[k] == x;
                assert(s[k + 1] == x);
            }
        }
        lemma_remove_first_push(t, x);
        assert(s.push(x).drop_first() =~= t.push(x));
        assert(seq![s[0]] + t =~= s);
    }
}

/// A text input that enters a window and leaves it again leaves the window as it was,
/// and entering twice is entering once.
pub proof fn law_text_input_enter_leave(v: WindowStateView, id: u32)
    requires
        v.wf(),
    ensures
        after_text_input_entered(after_text_input_entered(v, id), id) == after_text_input_entered(
            v,
            id,
        ),
        !v.text_inputs.contains(id) ==> after_text_input_left(after_text_input_entered(v, id), id)
            == v,
{
    let v1 = after_text_input_entered(v, id);
    assert(v1.text_inputs.contains(id)) by {
        if !v.text_inputs.contains(id) {
            assert(v1.text_inputs[v.text_inputs.len() as int] == id);
        }
    }
    if !v.text_inputs.contains(id) {
        lemma_remove_first_push(v.text_inputs, id);
    }
}

/// A pointer that left is no longer registered, and every pointer kept was registered
/// and is alive.
pub proof fn law_pointer_left_removes(pointers: Seq<u32>, alive: Seq<bool>, removed: u32)
    requires
        alive.len() == pointers.len(),
    ensures
        !kept_pointers(pointers, alive, removed).contains(removed),
        forall|p: u32| #[trigger]
            kept_pointers(pointers, alive, removed).contains(p) ==> pointers.contains(p),
    decreases pointers.len(),
{
    if pointers.len() > 0 {
        let ps = pointers.drop_last();
        let al = alive.drop_last();
        law_pointer_left_removes(ps, al, removed);
        let rest = kept_pointers(ps, al, removed);
        assert forall|p: u32| #[trigger]
            kept_pointers(pointers, alive, removed).contains(p) implies pointers.contains(p) by {
            if rest.contains(p) {
                let k = choose|k: int| 0 <= k < ps.len() && ps[k] == p;
                assert(pointers[k] == p);
            } else {
                assert(pointers[pointers.len() - 1] == p);
            }
        }
    }
}

/// Adding the focus of a seat that did not have it and removing it again restores the
/// set of focused seats.
pub proof fn law_seat_focus_add_remove(focus: Set<u32>, seat: u32)
    requires
        !focus.contains(seat),
    ensures
        focus.insert(seat).contains(seat),
        focus.insert(seat).remove(seat) == focus,
        !focus.remove(seat).contains(seat),
{
    assert(focus.insert(seat).remove(seat) =~= focus);
}

/// An answer `Some(b)` to an input method request tells that the input method became
/// enabled (`true`) or disabled (`false`); `None` means it stayed as enabled or disabled as
/// it was, with the same capabilities; a refused request changes nothing.
pub proof fn law_ime_answer_reports_state(v: WindowStateView, request: ImeRequest)
    ensures
        ({
            let (r, v1) = after_ime_request(v, request);
            &&& r matches Ok(Some(b)) ==> b == (v1.text_input_state is Some) && b != (
            v.text_input_state is Some)
            &&& r matches Ok(None) ==> (v1.text_input_state is Some) == (v.text_input_state is Some)
                && (v.text_input_state is Some ==> v1.text_input_state->0.capabilities
                == v.text_input_state->0.capabilities)
            &&& r is Err ==> v1 == v
        }),
{
}

/// Disabling an input method that is not enabled changes nothing and answers `None`.
pub proof fn law_ime_disable_when_disabled(v: WindowStateView)
    requires
        v.text_input_state is None,
    ensures
        after_ime_request(v, ImeRequest::Disable) == (Ok::<Option<bool>, ImeRequestError>(None), v),
{
}

/// Only one input method can be enabled: enabling it again is refused; an update gives
/// the enabled input method the new data and keeps its capabilities; and disabling it
/// restores the state from before it was enabled.
pub proof fn law_ime_enable_update_disable(
    v: WindowStateView,
    capabilities: ImeCapabilities,
    data: ImeRequestData,
    new_data: ImeRequestData,
)
    requires
        v.text_input_state is None,
    ensures
        ({
            let (r1, v1) = after_ime_request(v, ImeRequest::Enable(capabilities, data));
            let (r2, v2) = after_ime_request(v1, ImeRequest::Enable(capabilities, new_data));
            let (r3, v3) = after_ime_request(v1, ImeRequest::Update(new_data));
            let (r4, v4) = after_ime_request(v3, ImeRequest::Disable);
            &&& r1 == Ok::<Option<bool>, ImeRequestError>(Some(true))
            &&& v1.text_input_state == Some(TextInputClientState { capabilities, request_data: data })
            &&& r2 == Err::<Option<bool>, ImeRequestError>(ImeRequestError::AlreadyEnabled)
            &&& v2 == v1
            &&& r3 == Ok::<Option<bool>, ImeRequestError>(None)
            &&& v3.text_input_state == Some(
                TextInputClientState { capabilities, request_data: new_data },
            )
            &&& r4 == Ok::<Option<bool>, ImeRequestError>(Some(false))
            &&& v4 == v
        }),
{
    let (_, v1) = after_ime_request(v, ImeRequest::Enable(capabilities, data));
    let (_, v3) = after_ime_request(v1, ImeRequest::Update(new_data));
    assert(after_ime_request(v3, ImeRequest::Disable).1 == v);
}

/// Once a grab mode is set, asking for it again does nothing; and without pointer
/// constraints only releasing the grab can succeed.
pub proof fn law_cursor_grab(v: WindowStateView, mode: CursorGrabMode, any_pointer_alive: bool)
    ensures
        ({
            let (r1, v1) = after_set_cursor_grab(v, mode, any_pointer_alive);
            r1 is Ok ==> after_set_cursor_grab(v1, mode, any_pointer_alive) == (
            Ok::<_, crate::window_types::RequestError>(no_grab_actions()), v1)
        }),
        !v.has_pointer_constraints && v.user_grab_mode != mode ==> (after_set_cursor_grab(
            v,
            mode,
            any_pointer_alive,
        ).0 is Ok <==> mode == CursorGrabMode::Free),
{
}

/// A blur is only ever in place with a blur manager; turning it on and off again removes
/// it and restores the state.
pub proof fn law_blur_on_off(v: WindowStateView)
    requires
        v.wf(),
        !v.has_blur,
        v.has_blur_manager,
    ensures
        ({
            let (a1, v1) = after_set_blur(v, true);
            let (a2, v2) = after_set_blur(v1, false);
            &&& a1 == BlurAction::Create
            &&& v1.wf()
            &&& a2 == BlurAction::Remove
            &&& v2 == v
        }),
{
}

/// The bytes of a boolean `QVariant`: meta type 1, no flags, and the boolean as a 32-bit
/// integer, in a 16-byte image.
pub proof fn law_bool_qvariant_bytes(value: bool)
    ensures
        ({
            let b: u8 = if value {
                1
            } else {
                0
            };
            let v = QVariant {
                type_id: QMETATYPE_BOOL,
                flags: 0,
                bool_val: if value {
                    1
                } else {
                    0
                },
            };
            qvariant_bytes(v) == seq![1u8, 0, 0, 0, 0, 0, 0, 0, b, 0, 0, 0, 0, 0, 0, 0]
        }),
{
    let one: u32 = 1;
    let zero: u32 = 0;
    assert((one & 0xff) as u8 == 1u8 && ((one >> 8u32) & 0xff) as u8 == 0u8 && ((one >> 16u32)
        & 0xff) as u8 == 0u8 && ((one >> 24u32) & 0xff) as u8 == 0u8) by (bit_vector)
        requires
            one == 1,
    ;
    assert((zero & 0xff) as u8 == 0u8 && ((zero >> 8u32) & 0xff) as u8 == 0u8 && ((zero >> 16u32)
        & 0xff) as u8 == 0u8 && ((zero >> 24u32) & 0xff) as u8 == 0u8) by (bit_vector)
        requires
            zero == 0,
    ;
    let v = QVariant {
        type_id: QMETATYPE_BOOL,
        flags: 0,
        bool_val: if value {
            1
        } else {
            0
        },
    };
    let b: u8 = if value {
        1
    } else {
        0
    };
    assert(qvariant_bytes(v) =~= seq![1u8, 0, 0, 0, 0, 0, 0, 0, b, 0, 0, 0, 0, 0, 0, 0]);
}

/// When the keyboard area appears at height `h` the window shrinks by `h`; hiding the
/// keyboard then gives that height back.
pub proof fn law_keyboard_height_given_back(
    ime: MaliitInputMethodView,
    inner: LogicalSize,
    width: i32,
    height: i32,
)
    requires
        inner.height >= area_size(width, height).height,
    ensures
        ({
            let ime1 = MaliitInputMethodView { size: area_size(width, height), ..ime };
            let shrunk = (inner.height - area_size(width, height).height) as u32;
            shrunk + ime1.size.height == inner.height
        }),
{
}

/// Whether toplevel state bits leave the window free of maximized, fullscreen and
/// all-edges tiled states.
pub open spec fn free_state_bits(bits: u16) -> bool {
    &&& bits & STATE_MAXIMIZED != STATE_MAXIMIZED
    &&& bits & STATE_FULLSCREEN != STATE_FULLSCREEN
    &&& bits & STATE_TILED != STATE_TILED
}

/// The size a configure starts from when it gives no size of its own: the initial size on
/// the first configure, else the stateless size for a free state and the current size
/// for a maximized, fullscreen or tiled one.
pub open spec fn configure_base_size(
    v: WindowStateView,
    configure: WindowConfigure,
    initial_size: Option<LogicalSize>,
) -> LogicalSize {
    match initial_size {
        Some(s) => s,
        None => if free_state_bits(configure.state.bits) {
            v.stateless_size
        } else {
            v.size
        },
    }
}

/// The suggested bounds of a configure, with zero for a missing bound.
pub open spec fn suggested_bound_values(configure: WindowConfigure) -> (u32, u32) {
    match configure.suggested_bounds {
        Some((w, h)) => (w, h),
        None => (0, 0),
    }
}

/// Suggested bounds only cap the size: a configure without a size of its own gives, in
/// each dimension, the smaller of the size it starts from and the nonzero bound. So the
/// size never grows past where it started, and bounds at least that large leave it.
pub proof fn law_configure_bounds_only_cap(
    v: WindowStateView,
    configure: WindowConfigure,
    initial_size: Option<LogicalSize>,
)
    requires
        !(configure.new_width is Some && configure.new_height is Some),
    ensures
        ({
            let size = after_configure(v, configure, initial_size).1.size;
            let base = configure_base_size(v, configure, initial_size);
            let (bw, bh) = suggested_bound_values(configure);
            &&& size.width <= base.width
            &&& size.height <= base.height
            &&& bw != 0 ==> size.width <= bw
            &&& bh != 0 ==> size.height <= bh
            &&& size.width == base.width || size.width == bw
            &&& size.height == base.height || size.height == bh
            &&& (bw == 0 || bw >= base.width) ==> size.width == base.width
            &&& (bh == 0 || bh >= base.height) ==> size.height == base.height
        }),
{
}

/// A maximized, fullscreen or all-edges tiled window is not stateless: the resize of
/// such a configure leaves the stateless size where it was, and a size the user asks for
/// afterwards changes nothing. A window in a free state takes the size the user asks
/// for, and its stateless size follows.
pub proof fn law_only_free_windows_follow_user_size(
    v: WindowStateView,
    configure: WindowConfigure,
    initial_size: Option<LogicalSize>,
    requested: LogicalSize,
)
    ensures
        !free_state_bits(configure.state.bits) ==> {
            let v1 = after_configure(v, configure, initial_size).1;
            &&& v1.stateless_size == match initial_size {
                Some(s) => s,
                None => v.stateless_size,
            }
            &&& after_request_surface_size(v1, requested) == v1
        },
        (v.last_configure is None || free_state_bits(v.last_configure->0.state.bits)) ==> {
            let v2 = after_request_surface_size(v, requested);
            &&& v2.size == requested
            &&& v.last_configure is Some ==> v2.stateless_size == requested
        },
{
}

/// A hidden cursor is hidden on every pointer, whatever cursor is selected; a visible one
/// shows the selected named icon or the custom image.
pub proof fn law_cursor_visibility(selected: SelectedCursor, icon: cursor_icon::CursorIcon)
    ensures
        cursor_action_for(false, selected) == CursorAction::Hide,
        cursor_action_for(true, SelectedCursor::Named(icon)) == CursorAction::SetNamed(icon),
        cursor_action_for(true, SelectedCursor::Custom) == CursorAction::ApplyCustom,
{
}

/// With pointer constraints, a grab request always succeeds and first releases the grab in
/// effect, whatever the new mode; the new mode is taken once the old grab is gone (no grab
/// was in effect, or a live pointer released it), and it is in effect afterwards when it
/// is no grab or a live pointer took it.
pub proof fn law_grab_releases_grab_in_effect(
    v: WindowStateView,
    mode: CursorGrabMode,
    any_pointer_alive: bool,
)
    requires
        v.has_pointer_constraints,
    ensures
        ({
            let released = v.current_grab_mode == CursorGrabMode::Free || any_pointer_alive;
            &&& grab_outcome(v, mode, any_pointer_alive) == Ok::<GrabActions, crate::window_types::RequestError>(
                GrabActions {
                    release: v.current_grab_mode,
                    acquire: if released {
                        mode
                    } else {
                        CursorGrabMode::Free
                    },
                },
            )
            &&& grab_current_after(v, mode, any_pointer_alive) == if released && (mode
                == CursorGrabMode::Free || any_pointer_alive) {
                mode
            } else {
                v.current_grab_mode
            }
            &&& v.user_grab_mode != mode ==> after_set_cursor_grab(v, mode, any_pointer_alive).0
                == grab_outcome(v, mode, any_pointer_alive)
        }),
{
}

/// The indices of the pointers kept when `removed` leaves.
spec fn kept_indices(pointers: Seq<u32>, alive: Seq<bool>, removed: u32) -> Seq<int>
    decreases pointers.len(),
{
    if pointers.len() == 0 {
        Seq::empty()
    } else {
        let rest = kept_indices(pointers.drop_last(), alive.drop_last(), removed);
        if alive.last() && pointers.last() != removed {
            rest.push(pointers.len() - 1)
        } else {
            rest
        }
    }
}

/// `kept` is the subsequence of `pointers` at the increasing indices `idx`, which are
/// exactly the indices of the live pointers other than `removed`.
pub open spec fn selects_live_others(
    pointers: Seq<u32>,
    alive: Seq<bool>,
    removed: u32,
    kept: Seq<u32>,
    idx: Seq<int>,
) -> bool {
    &&& kept.len() == idx.len()
    &&& forall|m: int| 0 <= m < idx.len() ==> 0 <= #[trigger] idx[m] < pointers.len()
    &&& forall|m: int| 0 <= m < idx.len() ==> alive[#[trigger] idx[m]] && pointers[idx[m]] != removed
    &&& forall|m: int| 0 <= m < idx.len() ==> kept[m] == pointers[#[trigger] idx[m]]
    &&& forall|m1: int, m2: int| 0 <= m1 < m2 < idx.len() ==> #[trigger] idx[m1] < #[trigger] idx[m2]
    &&& forall|k: int|
        0 <= k < pointers.len() && #[trigger] alive[k] && pointers[k] != removed ==> exists|m: int|
            0 <= m < idx.len() && idx[m] == k
}

/// When a pointer leaves, the pointers kept are exactly the live ones other than it, in
/// their order: each such pointer stays registered, and nothing else does.
pub proof fn law_pointer_left_keeps_live_others(pointers: Seq<u32>, alive: Seq<bool>, removed: u32)
    requires
        alive.len() == pointers.len(),
    ensures
        exists|idx: Seq<int>|
            selects_live_others(pointers, alive, removed, kept_pointers(pointers, alive, removed), idx),
        forall|k: int|
            0 <= k < pointers.len() && alive[k] && pointers[k] != removed ==> kept_pointers(
                pointers,
                alive,
                removed,
            ).contains(#[trigger] pointers[k]),
    decreases pointers.len(),
{
    let idx = kept_indices(pointers, alive, removed);
    let kept = kept_pointers(pointers, alive, removed);
    lemma_kept_indices(pointers, alive, removed);
    assert(selects_live_others(pointers, alive, removed, kept, idx));
    assert forall|k: int|
        0 <= k < pointers.len() && alive[k] && pointers[k] != removed implies kept.contains(
            #[trigger] pointers[k],
        ) by {
        let m = choose|m: int| 0 <= m < idx.len() && idx[m] == k;
        assert(kept[m] == pointers[k]);
    }
}

proof fn lemma_kept_indices(pointers: Seq<u32>, alive: Seq<bool>, removed: u32)
    requires
        alive.len() == pointers.len(),
    ensures
        selects_live_others(
            pointers,
            alive,
            removed,
            kept_pointers(pointers, alive, removed),
            kept_indices(pointers, alive, removed),
        ),
    decreases pointers.len(),
{
    if pointers.len() > 0 {
        let ps = pointers.drop_last();
        let al = alive.drop_last();
        lemma_kept_indices(ps, al, removed);
        let idx0 = kept_indices(ps, al, removed);
        let kept0 = kept_pointers(ps, al, removed);
        let idx = kept_indices(pointers, alive, removed);
        let kept = kept_pointers(pointers, alive, removed);
        let n = pointers.len() - 1;
        assert forall|m: int| 0 <= m < idx0.len() implies 0 <= #[trigger] idx0[m] < n by {}
        assert forall|k: int|
            0 <= k < pointers.len() && #[trigger] alive[k] && pointers[k] != removed implies exists|
            m: int,
        | 0 <= m < idx.len() && idx[m] == k by {
            if k < n {
                assert(al[k] == alive[k] && ps[k] == pointers[k]);
                let m = choose|m: int| 0 <= m < idx0.len() && idx0[m] == k;
                assert(idx[m] == k);
            } else {
                assert(idx[idx.len() - 1] == k);
            }
        }
        assert forall|m: int| 0 <= m < idx.len() implies alive[#[trigger] idx[m]] && pointers[idx[m]]
            != removed && kept[m] == pointers[idx[m]] && 0 <= idx[m] < pointers.len() by {
            if m < idx0.len() {
                assert(idx[m] == idx0[m]);
                assert(kept[m] == kept0[m]);
                assert(al[idx0[m]] == alive[idx0[m]]);
                assert(ps[idx0[m]] == pointers[idx0[m]]);
            }
        }
        assert forall|m1: int, m2: int| 0 <= m1 < m2 < idx.len() implies #[trigger] idx[m1]
            < #[trigger] idx[m2] by {
            if m2 < idx0.len() {
                assert(idx[m1] == idx0[m1] && idx[m2] == idx0[m2]);
            } else {
                assert(idx[m1] == idx0[m1]);
            }
        }
    }
}

} // verus!
