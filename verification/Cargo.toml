[package]
name = "chat_backend"
version = "0.1.0"
edition = "2021"
publish = false

[dependencies]
axum = "=0.7.9"
bcrypt = "=0.15.1"
chrono = { version = "=0.4.45", features = ["serde"] }
dotenv = "=0.15.0"
jwt-simple = { version = "=0.12.17", default-features = false, features = ["pure-rust"] }
serde = { version = "=1.0.229", features = ["derive"] }
socketioxide = { version = "=0.14.1", features = ["state"] }
sqlx = { version = "=0.7.4", default-features = false, features = ["postgres", "runtime-tokio", "uuid", "chrono"] }
tokio = { version = "=1.54.1", features = ["full"] }
uuid = { version = "=1.29.0", features = ["serde"] }
