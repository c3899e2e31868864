[package]
name = "sickgnal"
version = "0.1.0"
edition = "2021"
publish = false

[dependencies]
hkdf = "0.12"
hmac = "0.12"
sha2 = "0.10"
aes-gcm = "0.10"
chacha20poly1305 = "0.10"
x25519-dalek = { version = "2", features = ["static_secrets", "serde"] }
ed25519-dalek = { version = "2", features = ["rand_core", "serde"] }
rand = "0.8"
lru = "0.12"
uuid = { version = "1", features = ["v4", "serde"] }
rustls-pki-types = "1"
rustls-webpki = { version = "0.103", default-features = false, features = ["std", "aws-lc-rs"] }
serde = { version = "1", features = ["derive"] }
serde_json = "1"
base64 = "0.22"
futures = "0.3"
tokio = { version = "1", features = ["rt", "macros", "sync", "io-util", "net"] }
async-trait = "0.1"
thiserror = "2"
bytes = "1"
tracing = "0.1"
