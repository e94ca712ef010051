[package]
name = "statusforge"
version = "0.5.0"
edition = "2021"
publish = false

[dependencies]
base64 = "0.22"
dirs = "*"
ed25519-dalek = "2"
hostname = "0.4"
keyring = "3"
log = "0.4"
rand = "0.8"
reqwest = { version = "0.12", default-features = false, features = ["blocking", "json", "rustls-tls"] }
serde = { version = "1", features = ["derive"] }
serde_json = "1"
sha2 = "0.10"
urlencoding = "2"
