[package]
name = "kitties"
version = "0.1.0"
edition = "2021"
publish = false

[dependencies]
sp-runtime = "*"
parity-scale-codec = { version = "3", features = ["derive"] }
scale-info = { version = "2", features = ["derive"] }
serde = { version = "1", features = ["derive"] }
