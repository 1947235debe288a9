[package]
name = "dgram"
version = "0.1.0"
edition = "2021"
publish = false

[dependencies]
tokio = { version = "1", features = ["net", "rt", "rt-multi-thread", "sync", "macros"] }
