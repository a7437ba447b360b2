[package]
name = "image_pipeline"
version = "0.1.0"
edition = "2021"
publish = false

[dependencies]
actix-multipart = "0.6"
actix-web = { version = "4", default-features = false, features = ["macros"] }
dotenv = "0.15"
env_logger = "0.10"
futures = "0.3"
image = "0.24"
mongodb = "2"
serde = { version = "1", features = ["derive"] }
