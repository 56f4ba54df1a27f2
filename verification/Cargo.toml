[package]
name = "one-kvm"
version = "0.1.0"
edition = "2021"
publish = false

[dependencies]
aes = "0.8"
sha2 = "0.10"
rand = "0.9"
rcgen = "0.14"
x509-parser = "0.17"
uuid = { version = "1", features = ["v4"] }
rustls = { version = "0.23", default-features = false, features = ["ring", "std", "tls12", "logging"] }
serde = { version = "1", features = ["derive"] }
serde_json = "1"
tokio = { version = "1", features = ["full"] }
axum = "0.8"
axum-server = { version = "0.7", features = ["tls-rustls"] }
bytes = "1"
parking_lot = "0.12"
libc = "0.2"
tracing = "0.1"
rusty_enet = "*"
alsa = "*"
rtp = "0.13"
webrtc = "0.13"
