[package]
name = "ds_code"
version = "0.1.0"
edition = "2021"
publish = false

[dependencies]
docker-api = "*"
dotenv = "0.15"
futures = "0.3"
serenity = "0.11"
tokio = { version = "1", features = ["macros", "rt-multi-thread"] }
