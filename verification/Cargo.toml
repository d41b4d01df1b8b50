[package]
name = "spin_apps"
version = "0.1.0"
edition = "2021"
publish = false

[dependencies]
rand = "0.8"
multipart-2021 = { version = "*", default-features = false, features = ["client"] }
mime = "0.3"
serde = { version = "1", features = ["derive"] }
serde_json = "1"
csv = "1"
anyhow = "1"
tracing = "0.1"
tracing-subscriber = { version = "0.3", features = ["env-filter"] }
spin-sdk = "3"
wasi = "0.13"
