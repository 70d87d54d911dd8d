[package]
name = "infisical_rs"
version = "0.1.0"
edition = "2021"
publish = false

[dependencies]
secrecy = "*"
serde_json = "*"
unescaper = "*"
serde = { version = "*", features = ["derive"] }
reqwest = { version = "*", default-features = false, features = ["json"] }
