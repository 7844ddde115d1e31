[package]
name = "todo_server"
version = "0.1.0"
edition = "2021"
publish = false

[dependencies]
argon2 = { version = "=0.5.3", features = ["std"] }
bson = "=2.15.0"
axum = "=0.8.9"
chrono = "=0.4.45"
dotenv = "=0.15.0"
futures = "=0.3.34"
jsonwebtoken = "=9.3.1"
mongodb = "=3.9.1"
serde = { version = "=1.0.229", features = ["derive"] }
tokio = { version = "=1.54.1", features = ["full"] }
