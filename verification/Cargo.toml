[package]
name = "shelf"
version = "0.1.0"
edition = "2021"
publish = false

[dependencies]
chrono = "0.4"
aes-gcm = "0.10"
pbkdf2 = "0.12"
sha2 = "0.10"
rand = "0.8"
hex = "0.4"
rusqlite = { version = "0.32", features = ["bundled"] }
serde = { version = "1", features = ["derive"] }
serde_json = "1"
once_cell = "1"
zeroize = "1"
