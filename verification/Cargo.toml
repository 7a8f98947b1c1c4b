[package]
name = "update_core"
version = "0.1.0"
edition = "2021"
publish = false

[dependencies]
thiserror = "1"
tokio = { version = "1", features = ["process"] }
winapi = { version = "0.3", features = ["winbase"] }
