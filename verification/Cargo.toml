[package]
name = "mode_coordinator"
version = "0.1.0"
edition = "2021"
publish = false

[dependencies]
arrayvec = "=0.5.2"
serde = { version = "1", features = ["derive"] }
