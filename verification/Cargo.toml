[package]
name = "rustweaved"
version = "0.1.0"
edition = "2021"
publish = false

[dependencies]
blake3 = "1"
keccak = "0.1"
tokio = { version = "1", default-features = false, features = ["sync"] }

[dev-dependencies]
sha3 = "0.10"
