[package]
name = "spectrusty"
version = "0.1.0"
edition = "2021"
publish = false

[dependencies]
z80emu = "*"
serde = { version = "*", features = ["derive"] }
