[package]
name = "comic_collection"
version = "0.1.0"
edition = "2021"
publish = false

[dependencies]
chrono = "0.4"
diesel = { version = "1.4", features = ["postgres", "r2d2", "chrono"] }
dotenv = "0.15"
hmac = "0.12"
jwt = "0.16"
poem = "1"
poem-openapi = { version = "1", features = ["swagger-ui", "redoc", "chrono"] }
serde = { version = "1", features = ["derive"] }
sha2 = "0.10"
tokio = { version = "1", features = ["rt-multi-thread", "macros"] }
tracing-subscriber = "0.3"
