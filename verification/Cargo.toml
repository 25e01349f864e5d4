[package]
name = "vaxbot"
version = "0.1.0"
edition = "2021"
publish = false

[dependencies]
anyhow = "1"
dotenv = "0.15"
env_logger = "0.8"
gjson = "*"
human_format = "*"
log = "0.4"
reqwest = { version = "0.11", default-features = false, features = ["rustls-tls"] }
serenity = "0.10"
tokio = { version = "1", features = ["macros", "rt-multi-thread"] }
