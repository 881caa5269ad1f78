[package]
name = "psniff_rs"
version = "0.1.0"
edition = "2021"
publish = false

[dependencies]
anyhow = "*"
async-trait = "*"
axum = "*"
clap = { version = "*", features = ["derive"] }
etherparse = "*"
futures = "*"
log = "*"
pcap = "*"
pin-project = "*"
serde = { version = "*", features = ["derive"] }
serde_json = "*"
structured-logger = "*"
thiserror = "*"
tokio = { version = "*", features = ["full"] }
tower = { version = "*", features = ["util", "timeout"] }
tower-layer = "*"
