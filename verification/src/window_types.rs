use vstd::prelude::*;

verus! {

/// The cursor icon of the `cursor-icon` crate; it is carried through, never looked into.
#[verifier::external_type_specification]
#[verifier::external_body]
pub struct ExCursorIcon(cursor_icon::CursorIcon);

/// Returns `CursorIcon::default()` of the `cursor-icon` crate (the arrow icon). Nothing is
/// claimed of the icon.
#[verifier::external_body]
pub(crate) fn default_cursor_icon() -> cursor_icon::CursorIcon {
    cursor_icon::CursorIcon::default()
}

/// The state of the frame callback.
#[derive(Debug, Clone, Copy, PartialEq, Eq, Structural)]
pub enum FrameCallbackState {
    /// No frame callback was requested.
    NotRequested,
    /// The frame callback was requested, but not yet arrived, the redraw events are throttled.
    Requested,
    /// The callback was marked as done, and user could receive redraw requested
    Received,
}

impl Default for FrameCallbackState {
    fn default() -> (s: Self)
        ensures
            s == FrameCallbackState::NotRequested,
    {
        FrameCallbackState::NotRequested
    }
}

/// The cursor grabbing mode.
#[derive(Debug, Clone, Copy, PartialEq, Eq, Structural)]
pub enum CursorGrabMode {
    /// No grabbing of the cursor is performed.
    Free,
    /// The cursor is confined to the window area.
    Confined,
    /// The cursor is locked inside the window area to the certain position.
    Locked,
}

/// The theme variant of the window decorations.
#[derive(Debug, Clone, Copy, PartialEq, Eq, Structural)]
pub enum Theme {
    Light,
    Dark,
}

/// The capabilities the application declared for the input method, as their raw bits.
#[derive(Debug, Clone, Copy, PartialEq, Eq, Structural)]
pub struct ImeCapabilities {
    pub bits: u32,
}

/// The area of the text cursor, in logical pixels of the window surface.
#[derive(Debug, Clone, Copy, PartialEq, Eq, Structural)]
pub struct ImeCursorArea {
    pub x: i32,
    pub y: i32,
    pub width: u32,
    pub height: u32,
}

/// The text around the cursor, with the cursor and selection anchor as byte offsets.
#[derive(Debug, Clone, PartialEq, Eq)]
pub struct ImeSurroundingText {
    pub text: String,
    pub cursor: usize,
    pub anchor: usize,
}

/// What the application tells the input method about its text field.
#[derive(Debug, Clone, PartialEq, Eq)]
pub struct ImeRequestData {
    /// The content hint and purpose, as the bits of `zwp_text_input_v3`.
    pub hint_and_purpose: Option<(u32, u32)>,
    /// Where the text cursor is.
    pub cursor_area: Option<ImeCursorArea>,
    /// The text around the cursor.
    pub surrounding_text: Option<ImeSurroundingText>,
}

/// The input method state that the window keeps for its text inputs.
#[derive(Debug, Clone, PartialEq, Eq)]
pub struct TextInputClientState {
    /// The capabilities the application declared when enabling the input method.
    pub capabilities: ImeCapabilities,
    /// The last data the application gave.
    pub request_data: ImeRequestData,
}

/// A request to change the input method state.
#[derive(Debug, Clone, PartialEq, Eq)]
pub enum ImeRequest {
    /// Enable the input method with the given capabilities and data.
    Enable(ImeCapabilities, ImeRequestData),
    /// Give an enabled input method new data.
    Update(ImeRequestData),
    /// Disable the input method.
    Disable,
}

/// Why an input method request was refused.
#[derive(Debug, Clone, Copy, PartialEq, Eq, Structural)]
pub enum ImeRequestError {
    /// The input method is not enabled.
    NotEnabled,
    /// The input method is already enabled.
    AlreadyEnabled,
}

/// What is not supported about a request.
#[derive(Debug, Clone, Copy, PartialEq, Eq, Structural)]
pub enum NotSupportedError {
    /// The compositor does not offer `zwp_pointer_constraints`.
    PointerConstraintsUnavailable,
    /// The cursor position can only be changed for a locked pointer.
    CursorNotLocked,
}

/// Why a window request failed.
#[derive(Debug, Clone, Copy, PartialEq, Eq, Structural)]
pub enum RequestError {
    NotSupported(NotSupportedError),
}

/// The toplevel states of a configure, as the bits of `xdg_toplevel` states.
#[derive(Debug, Clone, Copy, PartialEq, Eq, Structural)]
pub struct ToplevelState {
    pub bits: u16,
}

/// The surface is maximized.
pub const STATE_MAXIMIZED: u16 = 0x0001;

/// The surface is fullscreen.
pub const STATE_FULLSCREEN: u16 = 0x0002;

/// The surface is being resized.
pub const STATE_RESIZING: u16 = 0x0004;

/// The decorations are painted as active.
pub const STATE_ACTIVATED: u16 = 0x0008;

/// All four tiled edges.
pub const STATE_TILED: u16 = 0x00f0;

/// The surface is not being repainted.
pub const STATE_SUSPENDED: u16 = 0x0100;

impl ToplevelState {
    pub open spec fn has_all(self, flags: u16) -> bool {
        self.bits & flags == flags
    }

    /// Neither maximized, fullscreen nor tiled on all four edges.
    pub open spec fn spec_is_stateless(self) -> bool {
        !(self.has_all(STATE_MAXIMIZED) || self.has_all(STATE_FULLSCREEN) || self.has_all(
            STATE_TILED,
        ))
    }
}

/// A compositor request to resize the window or change its state.
#[derive(Debug, Clone, Copy)]
pub struct WindowConfigure {
    /// The suggested new width and height; each is absent or nonzero.
    pub new_width: Option<u32>,
    pub new_height: Option<u32>,
    /// Suggested maximum bounds for the window.
    pub suggested_bounds: Option<(u32, u32)>,
    /// The toplevel states.
    pub state: ToplevelState,
}

/// The cursor the user selected last.
#[derive(Debug, Clone, Copy, PartialEq, Eq)]
pub enum SelectedCursor {
    /// A named icon of the cursor theme.
    Named(cursor_icon::CursorIcon),
    /// The custom cursor image that the caller keeps.
    Custom,
}

/// What to do with the cursor on every pointer over the window.
#[derive(Debug, Clone, Copy, PartialEq, Eq)]
pub enum CursorAction {
    /// Show the named icon.
    SetNamed(cursor_icon::CursorIcon),
    /// Attach the custom cursor image.
    ApplyCustom,
    /// Hide the cursor.
    Hide,
}

/// The opaque region to give the surface.
#[derive(Debug, Clone, Copy, PartialEq, Eq, Structural)]
pub enum TransparencyHint {
    /// Unset the opaque region: the window may be transparent.
    NoOpaqueRegion,
    /// Mark the whole surface (from the origin up to `i32::MAX` in both directions) opaque.
    OpaqueEverywhere,
}

/// The grab operations to run on every live pointer over the window, in order:
/// first release the old grab, then take the new one. `CursorGrabMode::Free` means
/// that nothing is to be done in that step.
#[derive(Debug, Clone, Copy, PartialEq, Eq, Structural)]
pub struct GrabActions {
    pub release: CursorGrabMode,
    pub acquire: CursorGrabMode,
}

/// What to do about the blur of the window background.
#[derive(Debug, Clone, Copy, PartialEq, Eq, Structural)]
pub enum BlurAction {
    /// Create a blur through the blur manager and commit it.
    Create,
    /// Unset the blur through the blur manager and release it.
    Remove,
    /// Blur was asked for, but there is no blur manager.
    Unavailable,
    /// Nothing changes.
    Keep,
}

} // verus!
