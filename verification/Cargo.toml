[package]
name = "made_adapters"
version = "0.1.0"
edition = "2021"
publish = false

[dependencies]
sha2 = "0.10"
time = { version = "0.3", features = ["serde", "formatting", "parsing"] }
serde = { version = "1", features = ["derive"] }
serde_json = "1"
tokio = { version = "1", features = ["process", "rt", "time", "sync", "io-util", "macros"] }
async-trait = "0.1"
thiserror = "1"
uuid = { version = "1", features = ["v4"] }
prost-types = "0.13"
