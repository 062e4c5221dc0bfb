[package]
name = "task_api"
version = "0.1.0"
edition = "2021"
publish = false

[dependencies]
actix-web = "4"
sqlx = { version = "0.7", default-features = false, features = ["runtime-tokio", "sqlite", "macros"] }
tokio = { version = "1", features = ["macros", "rt-multi-thread"] }
serde = { version = "1", features = ["derive"] }
serde_json = { version = "1", features = ["raw_value"] }
chrono = "0.4"
uuid = { version = "1", features = ["v4"] }
rand = "0.8"
sha2 = "0.10"
hex = "0.4"
jsonwebtoken = "9"
dashmap = "5"
dotenv = "0.15"
env_logger = "0.10"
futures = "0.3"
anyhow = "1"
thiserror = "1"
argon2 = "0.5"
