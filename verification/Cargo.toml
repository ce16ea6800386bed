[package]
name = "hypervisor"
version = "0.1.0"
edition = "2021"
publish = false

[dependencies]
aes-gcm-siv = "0.11"
anyhow = "1"
axum = "0.7"
blake3 = "1"
chrono = "0.4"
clap = { version = "4", features = ["derive"] }
const-hex = "1"
dashmap = "6"
dcap-rs = "*"
k256 = { version = "0.13", features = ["ecdh", "ecdsa", "sha256"] }
rand = "0.8"
reqwest = { version = "0.12", default-features = false, features = ["json"] }
secrecy = "0.10"
serde = { version = "1", features = ["derive"] }
serde_json = "1"
thiserror = "1"
tokio = { version = "1", features = ["macros", "rt-multi-thread", "net", "fs"] }
toml = "0.8"
tower-http = { version = "0.5", features = ["cors"] }
tracing = "0.1"
tracing-subscriber = { version = "0.3", features = ["env-filter"] }
uuid = { version = "1", features = ["v7", "serde"] }
