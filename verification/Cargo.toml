[package]
name = "coin_price"
version = "0.1.0"
edition = "2021"
publish = false

[dependencies]
async-trait = "0.1"
chrono = { version = "0.4", default-features = false, features = ["clock"] }
poem = "3"
poem-openapi = { version = "5", features = ["swagger-ui"] }
reqwest = "0.12"
serde_json = "1"
tokio = { version = "1", features = ["macros", "rt-multi-thread", "sync"] }
tracing-subscriber = "0.3"
