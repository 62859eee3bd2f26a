[package]
name = "dojo_sync"
version = "0.1.0"
edition = "2021"
publish = false

[dependencies]
bevy = { version = "0.10", default-features = false }
bevy-tokio-tasks = "0.10"
num = "0.4"
rand = "0.8"
starknet-core = "0.4"
tokio = { version = "1", features = ["sync"] }
url = "2"
