//! Objects of the core Wayland protocol that the compositor implements.
pub mod buffer;
pub mod display;
pub mod registry;
pub mod shm;
pub mod surface;
