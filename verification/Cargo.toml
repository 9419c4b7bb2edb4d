[package]
name = "zkp2p_tlsn"
version = "0.1.0"
edition = "2021"
publish = false

[dependencies]
anyhow = "*"
bincode = "1"
chrono = "*"
clap = { version = "4", features = ["derive"] }
hex = "*"
http-body-util = "*"
hyper = { version = "1", features = ["client", "http1"] }
hyper-util = { version = "*", features = ["tokio"] }
serde = { version = "1", features = ["derive"] }
serde_json = "1"
tokio = { version = "1", features = ["rt", "rt-multi-thread", "macros", "net", "io-util", "fs", "time"] }
tracing = "*"
tracing-subscriber = { version = "*", features = ["env-filter"] }
