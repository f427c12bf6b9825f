[package]
name = "firesynth"
version = "0.1.0"
edition = "2021"
publish = false

[dependencies]
hound = "3.5"
rustysynth = "1.3"
native-windows-gui = "1.0"
native-windows-derive = "1.0"
winapi = { version = "0.3", features = ["winuser"] }
