pub mod wp_viewporter;
pub mod wp_viewport;
