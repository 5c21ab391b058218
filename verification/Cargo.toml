[package]
name = "hypr_monitors"
version = "0.1.0"
edition = "2021"
publish = false

[dependencies]
anyhow = "*"
hyprland = "*"
tracing = "*"
tracing-panic = "*"
tracing-subscriber = { version = "*", features = ["local-time"] }
