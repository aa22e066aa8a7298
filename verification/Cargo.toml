[package]
name = "crane_game"
version = "0.1.0"
edition = "2021"
publish = false

[dependencies]
anyhow = "1"
axum = { version = "0.8", features = ["ws"] }
backon = "1"
base64 = "0.22"
futures = "0.3"
godot = "0.2"
hmac = "0.12"
sha2 = "0.10"
hyper = "1"
hyper-util = { version = "0.1", features = ["server-auto", "tokio", "service"] }
maud = "0.26"
mime_guess = "2"
qrcode = { version = "0.14", default-features = false }
reqwest = { version = "0.12", default-features = false }
russh = "*"
rust-embed = "8"
serde = { version = "1", features = ["derive"] }
serde_json = "1"
tokio = { version = "1", features = ["full"] }
tracing = "0.1"
uuid = "1"
