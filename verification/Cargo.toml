[package]
name = "auth_api"
version = "0.1.0"
edition = "2021"
publish = false

[dependencies]
actix-http = "2"
actix-web = "3"
actix-web-httpauth = "0.5"
base64 = "0.13"
bcrypt = "0.9"
chrono = { version = "0.4", features = ["serde"] }
derive_more = "0.99"
diesel = { version = "1.4", features = ["postgres", "r2d2", "uuidv07", "chrono"] }
dotenv = "0.15"
env_logger = "0.8"
futures-util = "0.3"
hmac = "0.10"
jwt = "0.13"
lazy_static = "1.4"
log = "0.4"
r2d2 = "0.8"
serde = { version = "1", features = ["derive"] }
serde_json = "1"
sha2 = "0.9"
uuid = { version = "0.8", features = ["serde", "v4"] }
