[package]
name = "promptpuppet"
version = "0.1.0"
edition = "2021"
publish = false

[dependencies]
eframe = { version = "=0.33.3", default-features = false, features = ["glow", "x11"] }
egui = "=0.33.3"
image = { version = "=0.25.10", default-features = false, features = ["png"] }
serde = { version = "=1.0.229", features = ["derive"] }
serde_json = "=1.0.154"
