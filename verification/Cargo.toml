[package]
name = "ai_gateway"
version = "0.1.0"
edition = "2021"
publish = false

[dependencies]
serde_json = "*"
serde = { version = "*", features = ["derive"] }
actix-web = { version = "*", default-features = false, features = ["macros"] }
actix-cors = "*"
reqwest = { version = "*", default-features = false, features = ["json", "stream"] }
tokio = { version = "*", features = ["macros", "rt-multi-thread", "io-util"] }
tokio-util = { version = "*", features = ["io"] }
futures = "*"
async-stream = "*"
deadpool-postgres = "*"
tokio-postgres = "*"
log = "*"
env_logger = "*"
minijinja = "*"
serde_plain = "*"
