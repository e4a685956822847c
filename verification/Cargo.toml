[package]
name = "archive_auth"
version = "0.1.0"
edition = "2021"
publish = false

[dependencies]
async-trait = "0.1"
bcrypt = "*"
chrono = "0.4"
hmac = "0.12"
jwt = "0.16"
log = "0.4"
oauth2 = { version = "4", default-features = false, features = ["reqwest", "rustls-tls"] }
pretty_env_logger = "*"
rand = "0.8"
serde = { version = "1", features = ["derive"] }
serde_json = "1"
sha2 = "0.10"
tokio = { version = "1", features = ["rt-multi-thread", "macros", "sync", "time"] }
toml = "*"
webrs = "*"
