[package]
name = "molymod_dms"
version = "0.1.0"
edition = "2021"
publish = false

[dependencies]
rusqlite = { version = "*", features = ["bundled"] }
clap = { version = "*", features = ["derive"] }
nalgebra = "*"
ultraviolet = "*"
