[package]
name = "text_to_midi"
version = "0.1.0"
edition = "2021"
publish = false

[dependencies]
midly = "=0.5.3"
midi-msg = "=0.9.0"
rand = "=0.8.8"
midir = "=0.11.1"
eframe = { version = "=0.36.2", default-features = false, features = ["glow", "x11"] }
egui = { version = "=0.36.2", default-features = false }
egui_file = "=0.28.0"
