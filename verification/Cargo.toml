[package]
name = "kite_a"
version = "0.1.0"
edition = "2021"
publish = false

[dependencies]
bcrypt = "=0.15.1"
uuid = { version = "=1.29.0", features = ["v4"] }
getrandom = "=0.4.3"
chrono = "=0.4.45"
once_cell = "=1.21.4"
jsonwebtoken = "=9.3.1"
serde = { version = "=1.0.229", features = ["derive"] }
serde_json = "=1.0.154"
tokio = { version = "=1.54.1", features = ["macros", "rt-multi-thread"] }
actix-web = "=4.18.1"
actix-cors = "=0.7.2"
sqlx = { version = "=0.7.4", features = ["runtime-tokio", "sqlite"] }
log = "=0.4.35"
env_logger = "=0.11.11"
anyhow = "=1.0.104"
