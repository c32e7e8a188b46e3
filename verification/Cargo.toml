[package]
name = "rusty_renderer"
version = "0.1.0"
edition = "2021"
publish = false

[dependencies]
anyhow = "1"
bytemuck = "1"
chrono = "0.4"
clap = { version = "4", features = ["derive"] }
fern = "0.7"
glam = "0.29"
log = "0.4"
