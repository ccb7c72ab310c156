[package]
name = "airspace_settings"
version = "0.1.0"
edition = "2021"
publish = false

[dependencies]
serde = { version = "1", features = ["derive"] }
yew = { version = "0.21", default-features = false }
