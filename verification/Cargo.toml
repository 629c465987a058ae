[package]
name = "pamac_block"
version = "0.1.0"
edition = "2021"
publish = false

[dependencies]
crossbeam-channel = "=0.5.17"
serde = { version = "1", features = ["derive"] }
uuid = { version = "=1.29.0", features = ["v4"] }
