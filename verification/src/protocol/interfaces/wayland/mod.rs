pub mod wl_display;
pub mod wl_registry;
pub mod wl_callback;
pub mod wl_compositor;
pub mod wl_shm_pool;
pub mod wl_shm;
pub mod wl_buffer;
pub mod wl_data_offer;
pub mod wl_data_source;
pub mod wl_data_device;
pub mod wl_data_device_manager;
pub mod wl_shell;
pub mod wl_shell_surface;
pub mod wl_surface;
pub mod wl_seat;
pub mod wl_pointer;
pub mod wl_keyboard;
pub mod wl_touch;
pub mod wl_output;
pub mod wl_region;
pub mod wl_subcompositor;
pub mod wl_subsurface;
