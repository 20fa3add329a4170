[package]
name = "needle_core"
version = "0.1.0"
edition = "2021"
publish = false

[dependencies]
chrono = "0.4"
ash = "0.38"
ash-window = "0.13"
raw-window-handle = "0.6"
winit = "0.29"
clap = { version = "4", features = ["derive"] }
