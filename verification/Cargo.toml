[package]
name = "verdi"
version = "0.1.0"
edition = "2021"
publish = false

[dependencies]
waynest = { version = "=0.0.26", features = ["server", "tracing"] }
rustix = { version = "=0.38.44", features = ["fs", "mm"] }
tokio = { version = "=1.54.1", features = ["full"] }
anyhow = "=1.0.104"
async-trait = "=0.1.92"
bitflags = "=2.13.2"
tracing = "=0.1.44"
rand = "0.8"
bytemuck = { version = "1", features = ["derive"] }
wgpu = "22"
winit = "0.30"
softbuffer = "0.4"
