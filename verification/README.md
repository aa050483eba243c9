# winit-wayland-legacy

The window logic of a Wayland backend for compositors that speak the legacy
`wl_shell` protocol (such as Lipstick on Aurora OS), written in Verus.

- `src/` is the verified library: the window state (configure handling, sizes,
  title limits, cursor, pointer grabs, input method requests, blur and
  transparency hints, frame callbacks), the on-screen keyboard (Maliit) event
  decisions, the `QVariant` byte layout of boolean generic properties, and the
  replies to `wl_shell_surface` and `qt_extended_surface` events. Each public
  function states what it returns or changes; `src/laws.rs` proves the
  properties that span several operations.
- `app/` binds the protocol objects (sctk, wayland-client, the plasma
  protocols, Maliit over D-Bus), does the floating-point scaling, and carries
  out the actions that the library decides.
- `tests/` runs the library on concrete values.
