[package]
name = "captcha_jwt_auth"
version = "0.1.0"
edition = "2021"
publish = false

[dependencies]
actix-web = "4"
base64 = "=0.13.1"
captcha = "*"
chacha20poly1305 = "=0.10.1"
dotenv = "*"
envy = "*"
futures = "*"
jsonwebtoken = "=9.3.1"
serde = { version = "*", features = ["derive"] }
serde_json = "*"
slog = "*"
slog-bunyan = "*"
slog_derive = "*"
thiserror = "*"
uuid = { version = "*", features = ["v4"] }
