[package]
name = "opendiary"
version = "0.1.0"
edition = "2021"
publish = false

[dependencies]
anyhow = "1"
axum = { version = "0.5", features = ["headers"] }
chrono = { version = "0.4", features = ["serde"] }
env_logger = "0.9"
hex = "0.4"
lazy_static = "1"
log = "0.4"
pbkdf2 = { version = "0.11", features = ["simple"] }
postcard = "1"
rand = "0.8"
rand_core = { version = "0.6", features = ["std"] }
serde = { version = "1", features = ["derive"] }
serde_with = "2"
sha2 = "0.10"
sqlx = { version = "0.6", features = ["runtime-tokio-rustls", "postgres", "chrono", "uuid"] }
sync_wrapper = "0.1"
tokio = { version = "1", features = ["full"] }
tower = "0.4"
uuid = { version = "1", features = ["v4", "serde"] }
