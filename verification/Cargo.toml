[package]
name = "sfn_tpn"
version = "0.1.0"
edition = "2021"
publish = false

[dependencies]
anyhow = "1"
iroh-base = { version = "0.90", features = ["ticket"] }
tokio = { version = "1", features = ["sync", "rt", "rt-multi-thread", "time", "macros"] }
