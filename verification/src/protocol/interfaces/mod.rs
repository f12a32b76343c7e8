//! The protocols the compositor speaks, interface by interface.
pub mod wayland;
pub mod linux_dmabuf_v1;
pub mod presentation_time;
pub mod tablet_v2;
pub mod viewporter;
pub mod xdg_shell;
