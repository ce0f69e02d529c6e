[package]
name = "federation"
version = "0.1.0"
edition = "2021"
publish = false

[dependencies]
url = "2"
sha2 = "0.10"
bcrypt = "0.15"
serde = { version = "1", features = ["derive"] }
serde_json = "1"
