[package]
name = "angy"
version = "0.1.0"
edition = "2021"
publish = false

[dependencies]
log = "0.4"
micronfig = "*"
pretty_env_logger = "0.5"
reqwest = { version = "0.11", features = ["json"] }
serde = { version = "1", features = ["derive"] }
serenity = { version = "0.11", default-features = false, features = ["builder", "cache", "client", "gateway", "model", "http", "utils", "rustls_backend"] }
songbird = { version = "0.3", features = ["yt-dlp"] }
tokio = { version = "1", features = ["macros", "rt-multi-thread"] }
