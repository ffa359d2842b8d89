[package]
name = "localex"
version = "0.1.0"
edition = "2021"
publish = false

[dependencies]
anyhow = "1"
async-channel = "2"
tokio = { version = "1", features = ["macros", "net", "rt", "rt-multi-thread", "sync"] }
