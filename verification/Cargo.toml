[package]
name = "mq_usage_viewer"
version = "0.1.0"
edition = "2021"
publish = false

[dependencies]
jsonwebtoken = "9"
chrono = { version = "0.4", features = ["serde"] }
serde = { version = "1", features = ["derive"] }
serde_json = { version = "1", features = ["preserve_order"] }
rusqlite = { version = "*", features = ["chrono"] }
redis = "*"
actix-web = { version = "4", default-features = false, features = ["macros"] }
actix-files = "0.6"
actix-service = "2"
futures-util = "0.3"
dotenv = "0.15"
log = "0.4"
pretty_env_logger = "0.5"
