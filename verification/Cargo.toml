[package]
name = "ipc_contract"
version = "0.1.0"
edition = "2021"
publish = false

[dependencies]
chrono = "=0.4.45"
postcard = { version = "=1.1.3", features = ["alloc"] }
fast_qr = { version = "=0.12.7", features = ["svg"] }
serde = { version = "=1.0.229", features = ["derive"] }
