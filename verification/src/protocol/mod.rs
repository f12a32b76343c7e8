//! The Wayland protocol: the wire interfaces, and the objects the compositor implements.
pub mod interfaces;
pub mod wayland;
pub mod xdg;
