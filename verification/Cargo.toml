[package]
name = "nochat_crypto"
version = "0.1.0"
edition = "2021"
publish = false

[dependencies]
vodozemac = "0.9"
hkdf = "0.12"
sha2 = "0.10"
x25519-dalek = { version = "2", features = ["static_secrets"] }
curve25519-dalek = "4"
hex = "0.4"
rand = "0.8"
chrono = "0.4"
base64 = "0.22"
aes-gcm = "0.10"
serde = { version = "1", features = ["derive"] }
serde_json = "1"
thiserror = "1"
tokio = { version = "1", features = ["sync", "rt", "macros"] }
tracing = "0.1"
sqlx = { version = "0.8", default-features = false, features = ["runtime-tokio", "sqlite"] }
