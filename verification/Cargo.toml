[package]
name = "audio_processor"
version = "0.1.0"
edition = "2021"
publish = false

[dependencies]
sha2 = "0.10"
hex = "0.4"
symphonia = "0.5"
actix-web = { version = "4", default-features = false, features = ["macros"] }
actix-cors = "0.7"
env_logger = "0.11"
futures = "0.3"
serde = { version = "1", features = ["derive"] }
thiserror = "1"
uuid = { version = "1", features = ["v4"] }
lazy_static = "1"
