//! Window, input-method and protocol-event logic of a `wl_shell`-based Wayland
//! backend, stated over plain values and proved with Verus.

pub mod collections;
pub mod events;
pub mod geometry;
pub mod laws;
pub mod maliit_ime;
pub mod protocol;
pub mod qvariant;
pub mod title;
pub mod window_state;
pub mod window_types;
