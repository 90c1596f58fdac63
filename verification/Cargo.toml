[package]
name = "match_tracker"
version = "0.1.0"
edition = "2021"
publish = false

[dependencies]
async-stream = "0.3"
chrono = { version = "0.4", features = ["serde"] }
futures = "0.3"
openssl = "0.10"
postgres-openssl = "0.5"
reqwest = { version = "0.11", features = ["json"] }
serde = { version = "1", features = ["derive"] }
serenity = { version = "0.10", features = ["unstable_discord_api"] }
tokio = { version = "1", features = ["full"] }
tokio-postgres = "0.7"
