[package]
name = "llm_gateway"
version = "0.1.0"
edition = "2021"
publish = false

[dependencies]
serde = { version = "*", features = ["derive"] }
serde_json = "*"
tokio = { version = "*", features = ["full"] }
axum = "*"
reqwest = { version = "*", default-features = false }
chrono = { version = "*", features = ["serde"] }
uuid = { version = "*", features = ["v4"] }
secrecy = "*"
dotenvy = "*"
anyhow = "*"
async-trait = "*"
libloading = "*"
