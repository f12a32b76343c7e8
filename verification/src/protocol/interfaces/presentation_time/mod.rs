pub mod wp_presentation;
pub mod wp_presentation_feedback;
