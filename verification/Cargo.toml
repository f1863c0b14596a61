[package]
name = "libfabric-rs"
version = "0.1.0"
edition = "2021"

[dependencies]
eyre = "0.6"
libc = "0.2"
ofi-libfabric-sys = "*"
serde = { version = "1", features = ["derive"] }
tokio = { version = "1", features = ["io-util", "net", "rt", "sync"] }
