pub mod codec;
pub mod error;
pub mod protocol;
pub mod winit_backend;
pub mod wire;
