[package]
name = "modbus_tank"
version = "0.1.0"
edition = "2021"
publish = false

[dependencies]
anyhow = "1"
tokio = { version = "1", features = ["macros", "rt-multi-thread", "net", "time"] }
tokio-modbus = { version = "*", default-features = false, features = ["tcp-server"] }
