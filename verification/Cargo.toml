[package]
name = "loading_system"
version = "0.1.0"
edition = "2021"
publish = false

[dependencies]
tokio = { version = "1", features = ["rt-multi-thread", "macros", "time"] }
tokio-modbus = { version = "*", default-features = false, features = ["rtu"] }
tokio-serial = { version = "5", default-features = false }
