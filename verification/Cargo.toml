[package]
name = "chat_server"
version = "0.1.0"
edition = "2021"
publish = false

[dependencies]
actix = "0.13"
actix-files = "0.6"
actix-rt = "2"
actix-session = { version = "0.10", features = ["cookie-session"] }
actix-web = "4"
actix-web-actors = "4"
chrono = { version = "0.4", features = ["serde"] }
dotenv = "0.15"
serde = { version = "1", features = ["derive"] }
serde_json = "1"
sqlx = { version = "0.8", default-features = false, features = ["sqlite", "runtime-tokio", "derive", "chrono"] }
tera = { version = "1", default-features = false }
