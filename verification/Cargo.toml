[package]
name = "user_service"
version = "0.1.0"
edition = "2021"
publish = false

[dependencies]
uuid = { version = "*", features = ["v4"] }
actix-web = "*"
actix-cors = "*"
actix-session = { version = "*", features = ["cookie-session"] }
async-trait = "*"
serde = { version = "*", features = ["derive"] }
serde_json = "*"
sqlx = { version = "*", features = ["runtime-tokio", "postgres", "macros", "migrate"] }
env_logger = "*"
log = "*"
thiserror = "*"
