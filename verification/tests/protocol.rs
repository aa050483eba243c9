use winit_wayland_legacy::protocol::{
    extended_surface_event, resize_edges, shell_surface_event, ExtendedSurfaceAction,
    ExtendedSurfaceEvent, ResizeDirection, ShellSurfaceAction, ShellSurfaceEvent,
};

#[test]
fn resize_directions_map_to_edges() {
    assert_eq!(resize_edges(ResizeDirection::North), 1);
    assert_eq!(resize_edges(ResizeDirection::South), 2);
    assert_eq!(resize_edges(ResizeDirection::West), 4);
    assert_eq!(resize_edges(ResizeDirection::East), 8);
    assert_eq!(resize_edges(ResizeDirection::NorthWest), 5);
    assert_eq!(resize_edges(ResizeDirection::SouthWest), 6);
    assert_eq!(resize_edges(ResizeDirection::NorthEast), 9);
    assert_eq!(resize_edges(ResizeDirection::SouthEast), 10);
}

#[test]
fn ping_is_answered_with_same_serial() {
    assert_eq!(shell_surface_event(ShellSurfaceEvent::Ping { serial: 42 }), ShellSurfaceAction::Pong(42));
    assert_eq!(
        shell_surface_event(ShellSurfaceEvent::Configure { edges: 0, width: 10, height: 10 }),
        ShellSurfaceAction::Nothing
    );
}

#[test]
fn close_requests_close() {
    assert_eq!(extended_surface_event(&ExtendedSurfaceEvent::Close), ExtendedSurfaceAction::RequestClose);
    assert_eq!(
        extended_surface_event(&ExtendedSurfaceEvent::OnscreenVisibility { visible: 1 }),
        ExtendedSurfaceAction::SetFocused(true)
    );
    assert_eq!(
        extended_surface_event(&ExtendedSurfaceEvent::OnscreenVisibility { visible: 0 }),
        ExtendedSurfaceAction::SetFocused(false)
    );
    assert_eq!(
        extended_surface_event(&ExtendedSurfaceEvent::SetGenericProperty { name: "x".to_string(), value: vec![1] }),
        ExtendedSurfaceAction::Nothing
    );
}
