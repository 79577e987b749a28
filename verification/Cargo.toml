[package]
name = "authcore"
version = "0.1.0"
edition = "2021"
publish = false

[dependencies]
argon2 = "*"
uuid = { version = "*", features = ["v4"] }
actix-web = "*"
actix-session = { version = "*", features = ["cookie-session"] }
serde = { version = "*", features = ["derive"] }
tokio = { version = "*", features = ["rt"] }
tracing = "*"
config = "*"
