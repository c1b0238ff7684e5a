[package]
name = "m68k"
version = "0.7.0"
edition = "2021"
publish = false

[dependencies]
libm = "0.2"
serde = { version = "1", features = ["derive"] }
