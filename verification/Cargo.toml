[package]
name = "brr"
version = "0.1.0"
edition = "2021"
publish = false

[dependencies]
anyhow = "1"
clap = { version = "4", features = ["derive"] }
dialoguer = "0.11"
dirs = "5"
futures = "0.3"
git2 = { version = "0.19", default-features = false }
hyper = { version = "0.14", features = ["client", "http1", "tcp"] }
hyper-tls = "0.5"
ignore = "0.4"
notify = "4"
reqwest = { version = "0.11", default-features = false, features = ["blocking", "json"] }
rust-crypto = "0.2"
serde = { version = "1", features = ["derive"] }
serde_json = "1"
serde_qs = "0.12"
tar = "0.4"
thiserror = "1"
tokio = { version = "1", features = ["full"] }
tokio-tungstenite = "0.20"
toml = "0.8"
uuid = { version = "1", features = ["serde", "v4"] }
