[package]
name = "marwood_gui"
version = "0.1.0"
edition = "2021"
publish = false

[dependencies]
marwood = "=1.0.0"
egui = "=0.29.1"
eframe = { version = "=0.29.1", default-features = false, features = ["default_fonts", "glow", "x11"] }
egui_extras = "=0.29.1"
serde = { version = "=1.0.229", features = ["derive"] }
