[package]
name = "rcli"
version = "0.1.0"
edition = "2021"
publish = false

[dependencies]
anyhow = "1"
axum = "0.7"
base64 = "0.22"
blake3 = "1"
clap = { version = "4", features = ["derive"] }
ed25519-dalek = "2"
jsonwebtoken = "9"
rand = "0.8"
serde = { version = "1", features = ["derive"] }
tokio = { version = "1", features = ["rt-multi-thread", "macros", "net", "fs"] }
tower-http = { version = "0.5", features = ["fs"] }
tracing = "0.1"
tracing-subscriber = "0.3"
zxcvbn = "2"
