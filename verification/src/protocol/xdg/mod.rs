//! Objects of the xdg-shell protocol that the compositor implements.
pub mod toplevel;
