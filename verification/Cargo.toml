[package]
name = "eguard-core"
version = "0.1.0"
edition = "2021"
publish = false

[dependencies]
anyhow = "1"
napi = { version = "2", features = ["napi4"] }
napi-derive = "2"
once_cell = "1"
regex = "1"
reqwest = { version = "0.12", features = ["json"] }
serde = { version = "1", features = ["derive"] }
tokio = { version = "1", features = ["rt-multi-thread"] }
