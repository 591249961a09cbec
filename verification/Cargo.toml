[package]
name = "whisperlite"
version = "0.1.0"
edition = "2021"
publish = false

[dependencies]
serde = { version = "*", features = ["derive"] }
chrono = "*"
dirs = "*"
crossbeam-channel = "*"
parking_lot = "*"
