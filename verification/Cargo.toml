[package]
name = "wordser"
version = "0.1.0"
edition = "2021"
publish = false

[dependencies]
axum = "0.6"
dotenv = "0.15"
hyper = { version = "0.14", features = ["full"] }
reqwest = { version = "0.11", features = ["blocking", "json"] }
rust-bert = "0.20"
serde = { version = "1", features = ["derive"] }
serde_json = "1"
tokio = { version = "1", features = ["full"] }
