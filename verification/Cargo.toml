[package]
name = "delegatify"
version = "0.1.0"
edition = "2021"
publish = false

[dependencies]
poise = "0.6"
rspotify = "0.13"
tokio = { version = "1", features = ["sync"] }
tracing = "0.1"
