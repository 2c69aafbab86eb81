[package]
name = "readiness"
version = "0.1.0"
edition = "2021"
publish = false

[dependencies]
tauri = { version = "=2.12.5", default-features = false, features = ["wry"] }
tokio = { version = "=1.54.1", default-features = false, features = ["rt-multi-thread", "time"] }
