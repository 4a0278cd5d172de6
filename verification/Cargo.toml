[package]
name = "midi_device"
version = "0.1.0"
edition = "2021"
publish = false

[dependencies]
eframe = { version = "0.21", default-features = false, features = ["glow", "default_fonts"] }
egui = "0.21"
jack = "0.11"
lazy_static = "1.4"
