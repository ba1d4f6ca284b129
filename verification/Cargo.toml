[package]
name = "sidecar_manager"
version = "0.1.0"
edition = "2021"
publish = false

[dependencies]
tokio = { version = "1", features = ["macros", "rt-multi-thread", "process", "time", "sync", "io-std", "io-util"] }
reqwest = { version = "0.12", default-features = false }
