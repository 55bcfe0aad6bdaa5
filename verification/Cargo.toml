[package]
name = "user_service"
version = "0.1.0"
edition = "2021"
publish = false

[dependencies]
actix-web = "=4.15.0"
actix-identity = "=0.9.0"
actix-session = { version = "=0.11.0", features = ["cookie-session"] }
serde = { version = "=1.0.229", features = ["derive"] }
serde_json = "=1.0.151"
rust-argon2 = "=3.0.0"
rand = "=0.10.3"
uuid = { version = "=1.27.0", features = ["v4", "serde"] }
chrono = "=0.4.45"
