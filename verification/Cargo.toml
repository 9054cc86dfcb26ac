[package]
name = "dream_ini_portmaster"
version = "0.1.0"
edition = "2021"
publish = false

[dependencies]
egui = { version = "*", default-features = false }
libc = "*"
