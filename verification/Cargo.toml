[package]
name = "rauth"
version = "0.1.0"
edition = "2021"
publish = false

[dependencies]
rust-argon2 = "*"
nanoid = "*"
rocket = { version = "0.5", features = ["json"] }
mongodb = "2"
serde = { version = "1", features = ["derive"] }
dotenv = "0.15"
