[package]
name = "dotnettauritest"
version = "0.1.0"
edition = "2021"
publish = false

[dependencies]
base64 = "*"
rand = "*"
sha2 = "*"
secrecy = "*"
url = "*"
serde = { version = "1", features = ["derive"] }
serde_json = "1"
toml = "*"
reqwest = { version = "0.12", default-features = false, features = ["json", "rustls-tls"] }
keyring = "*"
keyring-core = "*"
tokio = { version = "1", features = ["rt-multi-thread", "macros"] }
