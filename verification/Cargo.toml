[package]
name = "photobomber"
version = "0.1.0"
edition = "2021"
publish = false

[dependencies]
actix-web = { version = "=4.18.1", default-features = false, features = ["macros", "cookies"] }
actix-cors = "=0.7.2"
actix-multipart = "=0.7.2"
anyhow = "=1.0.104"
chrono = "=0.4.45"
env_logger = "=0.11.11"
futures-util = "=0.3.34"
jsonwebtoken = "=9.3.1"
log = "=0.4.35"
mime = "=0.3.17"
sanitize-filename = "=0.5.0"
serde = { version = "=1.0.229", features = ["derive"] }
serde_json = { version = "=1.0.154", features = ["raw_value"] }
sqlx = { version = "=0.8.6", default-features = false, features = ["runtime-tokio", "sqlite"] }
strum = { version = "=0.26.3", features = ["derive"] }
tokio = { version = "=1.54.1", features = ["full"] }
twox-hash = "=1.6.3"
uuid = { version = "=1.29.0", features = ["v4"] }
