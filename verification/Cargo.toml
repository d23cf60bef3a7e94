[package]
name = "signal_toolbox"
version = "0.1.0"
edition = "2021"
publish = false

[dependencies]
egui-file-dialog = { version = "0.9", default-features = false }
kira = { version = "0.10", default-features = false, features = ["cpal", "mp3"] }
