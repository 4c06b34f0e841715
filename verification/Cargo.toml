[package]
name = "teacher_service"
version = "0.1.0"
edition = "2021"
publish = false

[dependencies]
actix-web = "4"
actix-rt = "2"
actix-cors = "*"
dotenv = "0.15"
serde = { version = "1", features = ["derive"] }
sqlx = { version = "0.7", default-features = false, features = ["mysql", "runtime-tokio"] }
