[package]
name = "rust_play"
version = "0.1.0"
edition = "2021"
publish = false

[dependencies]
strip-ansi-escapes = "*"
serde = { version = "*", features = ["derive"] }
egui = "*"
egui_dock = "*"
