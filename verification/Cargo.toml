[package]
name = "aruna_ape"
version = "0.1.0"
edition = "2021"
publish = false

[dependencies]
anyhow = "=1.0.104"
aruna-cache = "=0.2.3"
aruna-rust-api = "=2.0.2"
base64 = "=0.21.7"
diesel-ulid = "=0.2.0"
jsonwebtoken = "=8.3.0"
reqwest = { version = "=0.11.27", default-features = false, features = ["json"] }
serde = { version = "=1.0.229", features = ["derive"] }
serde_json = "=1.0.154"

[dev-dependencies]
openssl = "0.10"
rand = "0.8"
ring = "=0.16.20"
rsa = "0.9"
