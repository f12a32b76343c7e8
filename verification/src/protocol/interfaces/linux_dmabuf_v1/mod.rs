pub mod zwp_linux_dmabuf_v1;
pub mod zwp_linux_buffer_params_v1;
pub mod zwp_linux_dmabuf_feedback_v1;
