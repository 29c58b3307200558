[package]
name = "mvd_core"
version = "0.1.0"
edition = "2021"
publish = false

[dependencies]
argon2 = "=0.6.0"
jsonwebtoken = { version = "=11.1.0", features = ["rust_crypto"] }
axum = "*"
tokio = { version = "*", features = ["rt-multi-thread", "macros", "net"] }
serde = { version = "*", features = ["derive"] }
serde_json = "*"
cookie = "*"
