[package]
name = "recommendation"
version = "0.1.0"
edition = "2021"
publish = false

[dependencies]
anyhow = "1"
chrono = "0.4"
dotenv = "0.15"
jsonwebtoken = "8"
meilisearch-sdk = "0.24"
neo4rs = "0.6"
serde = { version = "1", features = ["derive"] }
tokio = { version = "1", features = ["full"] }
warp = "0.3"
