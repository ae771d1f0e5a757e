[package]
name = "user_accounts"
version = "0.1.0"
edition = "2021"
publish = false

[dependencies]
actix-cors = "0.7"
actix-web = "4"
dotenv = "0.15"
env_logger = "0.11"
lazy_static = "1"
log = "0.4"
prometheus = "0.13"
serde = { version = "1", features = ["derive"] }
thiserror = "1"
tokio = { version = "1", features = ["rt"] }
tokio-postgres = "0.7"
tracing = "0.1"
tracing-actix-web = "0.7"
