[package]
name = "legacy_status_meta"
version = "0.1.0"
edition = "2021"
publish = false

[dependencies]
serde = { version = "1", features = ["derive"] }
serde-reflection = "*"
serde-generate = "*"
thiserror = "1"
solana-short-vec = "*"
solana-serde = "*"

[dev-dependencies]
bincode = "1"
