[package]
name = "api"
version = "0.1.0"
edition = "2021"
publish = false

[dependencies]
actix-cors = "=0.5.4"
actix-multipart = "=0.3.0"
actix-redis = "=0.9.2"
actix-rt = "=1.1.1"
actix-session = "=0.4.1"
actix-web = "=3.3.3"
chrono = { version = "=0.4.45", features = ["serde"] }
cloud-storage = { version = "=0.6.2", features = ["sync"] }
config = "=0.10.1"
diesel = { version = "=1.4.8", features = ["postgres", "r2d2", "uuidv07", "chrono", "serde_json"] }
dotenv = "=0.15.0"
env_logger = "=0.7.1"
futures = "=0.3.34"
hex = "=0.4.3"
log = "=0.4.34"
mime = "=0.3.17"
mime_guess = "=2.0.5"
pretty_env_logger = "=0.4.0"
r2d2 = "=0.8.10"
rand = "=0.7.3"
redis = "=0.16.0"
regex = "=1.13.1"
ring = "=0.16.20"
rust-argon2 = "=0.8.3"
sentry = { version = "=0.18.1", features = ["with_log", "with_env_logger"] }
serde = { version = "=1.0.229", features = ["derive"] }
serde_json = "=1.0.154"
time = "=0.2.27"
uuid = { version = "=0.8.2", features = ["serde", "v4"] }
zip = { version = "=0.6.6", default-features = false, features = ["deflate", "bzip2"] }
