[package]
name = "nextnet_gui"
version = "0.1.0"
edition = "2021"
publish = false

[dependencies]
eframe = { version = "0.27", default-features = false, features = ["default_fonts", "glow"] }
ehttp = { version = "0.5", features = ["json"] }
serde = { version = "1", features = ["derive"] }
serde_json = "1"
