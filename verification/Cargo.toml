[package]
name = "credential_storage"
version = "0.1.0"
edition = "2021"
publish = false

[dependencies]
base64 = "=0.22.1"
chacha20poly1305 = "=0.10.1"
getrandom = "=0.2.17"
keyring = "=2.3.3"
log = "=0.4.35"
once_cell = "=1.21.4"
reqwest_cookie_store = "=0.8.2"
serde = { version = "=1.0.229", features = ["derive"] }
serde_json = "=1.0.154"

[dev-dependencies]
url = "=2.5.8"
