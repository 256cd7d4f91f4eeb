[package]
name = "cphere_backend"
version = "0.1.0"
edition = "2021"
publish = false

[dependencies]
actix = "0.13"
actix-cors = "*"
actix-service = "2"
actix-session = { version = "*", features = ["cookie-session"] }
actix-web = { version = "4", default-features = false, features = ["macros", "cookies", "ws"] }
actix-web-actors = "4"
argon2 = "=0.5.3"
async-trait = "0.1"
bson = "=2.15.0"
chrono = { version = "=0.4.45", features = ["serde"] }
dotenv = "0.15"
env_logger = "*"
futures = "0.3"
futures-util = "0.3"
lettre = "*"
log = "0.4"
mongodb = "2"
rand = "=0.8.8"
regex = "=1.13.1"
serde = { version = "1", features = ["derive"] }
serde_json = "=1.0.154"
thiserror = "1"
time = "0.3"
tokio = { version = "1", features = ["full"] }
uuid = { version = "=1.29.0", features = ["v4"] }
validator = { version = "=0.21.0", features = ["derive"] }
