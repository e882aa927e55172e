[package]
name = "runtime_bridge"
version = "0.1.0"
edition = "2021"
publish = false

[dependencies]
anyhow = "1"
futures = "0.3"
hyper = "0.13"
smol = "0.1"
tokio = { version = "0.2", features = ["macros", "rt-threaded"] }
