[package]
name = "agentfs_core"
version = "0.1.0"
edition = "2021"
publish = false

[dependencies]
libc = "=0.2.191"
serde = { version = "=1.0.229", features = ["derive"] }
serde_json = "=1.0.154"
chrono = "=0.4.45"
tokio = { version = "=1.54.1", features = ["rt-multi-thread", "net", "io-util", "macros", "fs"] }
dirs = "=7.0.0"
ethereum_ssz = "*"
ethereum_ssz_derive = "*"
hex = "*"
