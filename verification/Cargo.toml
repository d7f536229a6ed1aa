[package]
name = "job_scheduler"
version = "0.1.0"
edition = "2021"
publish = false

[dependencies]
actix-files = "0.6"
actix-service = "2"
actix-web = { version = "4", default-features = false, features = ["macros", "cookies"] }
async-trait = "0.1"
azure_core = "0.22"
azure_identity = "0.22"
chrono = "0.4"
cron = "*"
dotenv = "0.15"
futures-util = "0.3"
jsonwebtoken = "9"
log = "0.4"
once_cell = "1"
pretty_env_logger = "0.5"
reqwest = { version = "0.12", default-features = false, features = ["json", "rustls-tls"] }
serde = { version = "1", features = ["derive"] }
serde_json = "1"
sqlx = { version = "0.8", default-features = false, features = ["runtime-tokio", "sqlite"] }
thiserror = "1"
time = "0.3"
tokio = { version = "1", features = ["full"] }
twox-hash = "*"
urlencoding = "2"
uuid = { version = "1", features = ["v4"] }
