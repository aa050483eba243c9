//! What the window does about the events of the `wl_shell_surface` and
//! `qt_extended_surface` protocol objects.
use vstd::prelude::*;

verus! {

/// An event of a `wl_shell_surface`.
#[derive(Debug, Clone, Copy, PartialEq, Eq, Structural)]
pub enum ShellSurfaceEvent {
    /// The compositor checks that the client is alive.
    Ping { serial: u32 },
    /// The compositor suggests a size.
    Configure { edges: u32, width: i32, height: i32 },
    /// A popup grab was broken.
    PopupDone,
}

/// The reply to a `wl_shell_surface` event.
#[derive(Debug, Clone, Copy, PartialEq, Eq, Structural)]
pub enum ShellSurfaceAction {
    /// Answer a ping with the same serial.
    Pong(u32),
    /// Nothing to send.
    Nothing,
}

/// The reply to an event of a `wl_shell_surface`: a ping is answered with a pong of the
/// same serial, a configure only noted. Popups are not implemented.
pub fn shell_surface_event(event: ShellSurfaceEvent) -> (action: ShellSurfaceAction)
    requires
        !(event is PopupDone),
    ensures
        action == match event {
            ShellSurfaceEvent::Ping { serial } => ShellSurfaceAction::Pong(serial),
            _ => ShellSurfaceAction::Nothing,
        },
{
    match event {
        ShellSurfaceEvent::Ping { serial } => ShellSurfaceAction::Pong(serial),
        ShellSurfaceEvent::Configure { .. } => ShellSurfaceAction::Nothing,
        ShellSurfaceEvent::PopupDone => ShellSurfaceAction::Nothing,
    }
}

/// An event of a `qt_extended_surface`.
#[derive(Debug, Clone, PartialEq, Eq)]
pub enum ExtendedSurfaceEvent {
    /// The compositor asks the window to close.
    Close,
    /// The window became visible or hidden on screen.
    OnscreenVisibility { visible: i32 },
    /// The compositor set a generic property.
    SetGenericProperty { name: String, value: Vec<u8> },
}

/// What the window does about a `qt_extended_surface` event.
#[derive(Debug, Clone, Copy, PartialEq, Eq, Structural)]
pub enum ExtendedSurfaceAction {
    /// Ask the application to close the window.
    RequestClose,
    /// The window gains (`true`) or loses (`false`) focus.
    SetFocused(bool),
    /// Nothing.
    Nothing,
}

/// What the window does about a `qt_extended_surface` event: a close event asks for the
/// window to close, a change of on-screen visibility makes the window focused when it is
/// visible (nonzero) and unfocused when it is not, and a generic property is only noted.
pub fn extended_surface_event(event: &ExtendedSurfaceEvent) -> (action: ExtendedSurfaceAction)
    ensures
        action == match *event {
            ExtendedSurfaceEvent::Close => ExtendedSurfaceAction::RequestClose,
            ExtendedSurfaceEvent::OnscreenVisibility { visible } => ExtendedSurfaceAction::SetFocused(
                visible != 0,
            ),
            ExtendedSurfaceEvent::SetGenericProperty { .. } => ExtendedSurfaceAction::Nothing,
        },
{
    match event {
        ExtendedSurfaceEvent::Close => ExtendedSurfaceAction::RequestClose,
        ExtendedSurfaceEvent::OnscreenVisibility { visible } => ExtendedSurfaceAction::SetFocused(
            *visible != 0,
        ),
        ExtendedSurfaceEvent::SetGenericProperty { .. } => ExtendedSurfaceAction::Nothing,
    }
}

/// The direction of an interactive resize.
#[derive(Debug, Clone, Copy, PartialEq, Eq, Structural)]
pub enum ResizeDirection {
    East,
    North,
    NorthEast,
    NorthWest,
    South,
    SouthEast,
    SouthWest,
    West,
}

/// The top edge of `wl_shell_surface.resize`.
pub const EDGE_TOP: u32 = 1;

/// The bottom edge of `wl_shell_surface.resize`.
pub const EDGE_BOTTOM: u32 = 2;

/// The left edge of `wl_shell_surface.resize`.
pub const EDGE_LEFT: u32 = 4;

/// The right edge of `wl_shell_surface.resize`.
pub const EDGE_RIGHT: u32 = 8;

/// The edges, as `wl_shell_surface.resize` bits, that a resize direction drags.
pub open spec fn spec_resize_edges(direction: ResizeDirection) -> u32 {
    match direction {
        ResizeDirection::East => EDGE_RIGHT,
        ResizeDirection::North => EDGE_TOP,
        ResizeDirection::NorthEast => EDGE_TOP | EDGE_RIGHT,
        ResizeDirection::NorthWest => EDGE_TOP | EDGE_LEFT,
        ResizeDirection::South => EDGE_BOTTOM,
        ResizeDirection::SouthEast => EDGE_BOTTOM | EDGE_RIGHT,
        ResizeDirection::SouthWest => EDGE_BOTTOM | EDGE_LEFT,
        ResizeDirection::West => EDGE_LEFT,
    }
}

/// The edges, as `wl_shell_surface.resize` bits, that a resize direction drags.
pub fn resize_edges(direction: ResizeDirection) -> (edges: u32)
    ensures
        edges == spec_resize_edges(direction),
{
    match direction {
        ResizeDirection::East => EDGE_RIGHT,
        ResizeDirection::North => EDGE_TOP,
        ResizeDirection::NorthEast => EDGE_TOP | EDGE_RIGHT,
        ResizeDirection::NorthWest => EDGE_TOP | EDGE_LEFT,
        ResizeDirection::South => EDGE_BOTTOM,
        ResizeDirection::SouthEast => EDGE_BOTTOM | EDGE_RIGHT,
        ResizeDirection::SouthWest => EDGE_BOTTOM | EDGE_LEFT,
        ResizeDirection::West => EDGE_LEFT,
    }
}

} // verus!
