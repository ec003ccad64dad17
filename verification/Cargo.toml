[package]
name = "shortlink"
version = "0.1.0"
edition = "2021"
publish = false

[dependencies]
url = "2"
uuid = { version = "1", features = ["v4"] }
actix-web = "4"
sqlx = { version = "*", default-features = false, features = ["postgres", "runtime-tokio"] }
serde = { version = "1", features = ["derive"] }
dotenv = "0.15"
env_logger = "*"
