[package]
name = "bulb_core"
version = "0.1.0"
edition = "2021"
publish = false

[dependencies]
anyhow = "*"
crossbeam-channel = "*"
midir = "*"
rust-async-tuyapi = "*"
serde_json = "*"
tokio = { version = "*", features = ["rt-multi-thread", "macros", "time", "sync"] }
