[package]
name = "esc_api"
version = "0.1.0"
edition = "2021"
publish = false

[dependencies]
jsonwebtoken = "=9.3.1"
serde_json = "*"
fuzzy-matcher = "*"
serde = { version = "*", features = ["derive"] }
actix-web = "*"
reqwest = { version = "=0.12.28", default-features = false, features = ["json", "rustls-tls"] }
figment = { version = "*", features = ["toml"] }
firestore = "*"
tokio = { version = "*", features = ["macros", "rt-multi-thread"] }
env_logger = "*"
inquire = "*"
