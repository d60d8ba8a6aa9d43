[package]
name = "profile_mirror"
version = "0.1.0"
edition = "2021"
publish = false

[dependencies]
actix-cors = "0.7"
actix-web = { version = "4", default-features = false, features = ["macros"] }
actix-web-httpauth = "0.8"
argon2 = { version = "0.5", features = ["std"] }
chrono = { version = "0.4", default-features = false, features = ["clock", "std"] }
dotenv = "0.15"
env_logger = { version = "0.11", default-features = false }
jsonwebtoken = { version = "9", default-features = false }
reqwest = { version = "0.12", default-features = false, features = ["json", "rustls-tls"] }
serde = { version = "1", features = ["derive"] }
serde_json = "1"
sqlx = { version = "0.8", default-features = false, features = ["runtime-tokio", "postgres", "uuid", "chrono"] }
uuid = { version = "1", features = ["v4"] }
