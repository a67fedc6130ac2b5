[package]
name = "wallet_backup"
version = "0.1.0"
edition = "2021"
publish = false

[dependencies]
amplify = "=4.8.1"
base64 = "=0.22.1"
bdk_wallet = { version = "=2.4.0", default-features = false, features = ["std"] }
chacha20poly1305 = "=0.10.1"
generic-array = "=0.14.7"
getrandom = "=0.2.17"
hex = "=0.4.3"
rgb-ops = "=0.11.1"
rgb-strict-encoding = "=1.0.5"
scrypt = "=0.11.0"
serde = { version = "=1.0.229", features = ["derive"] }
serde_json = "=1.0.154"
typenum = "=1.20.1"
