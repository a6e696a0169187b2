[package]
name = "em2rs"
version = "0.1.0"
edition = "2021"
publish = false

[dependencies]
tokio-modbus = { version = "*", features = ["rtu-sync"] }
thiserror = "*"
