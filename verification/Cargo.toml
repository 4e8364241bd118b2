[package]
name = "basilisk"
version = "0.1.0"
edition = "2021"
publish = false

[dependencies]
sp-arithmetic = { version = "4.0.0", default-features = false, features = ["std"] }
sp-weights = "*"
parity-scale-codec = { version = "*", features = ["derive"] }
