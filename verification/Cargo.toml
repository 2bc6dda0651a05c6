[package]
name = "glow_effect"
version = "0.1.0"
edition = "2021"
publish = false

[dependencies]
anyhow = "=1.0.104"
bytemuck = { version = "=1.25.2", features = ["derive"] }
wgpu = { version = "=25.0.2", features = ["noop"] }
