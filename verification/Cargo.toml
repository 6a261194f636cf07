[package]
name = "rust_backend"
version = "0.1.0"
edition = "2021"
publish = false

[dependencies]
ring = "0.17"
uuid = { version = "1", features = ["v4"] }
serde = { version = "1", features = ["derive"] }
actix-web = "4"
actix-session = { version = "*", features = ["cookie-session"] }
actix-cors = "*"
actix-multipart-extract = "*"
sqlx = { version = "0.8", default-features = false, features = ["runtime-tokio", "postgres", "chrono"] }
dotenv = "0.15"
env_logger = "*"
