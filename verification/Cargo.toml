[package]
name = "ernest"
version = "0.1.0"
edition = "2021"
publish = false

[dependencies]
sha2 = "0.10"
hex = "0.4"
uuid = { version = "1", features = ["v4"] }
chrono = "0.4"
serde = { version = "1", features = ["derive"] }
toml = "0.8"
thiserror = "1"
keyring = "2"
reqwest = { version = "0.12", default-features = false, features = ["blocking"] }
ssh2 = "0.9"
suppaftp = "6"
