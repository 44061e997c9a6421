[package]
name = "compensation"
version = "0.1.0"
edition = "2021"
publish = false

[dependencies]
actix-web = { version = "*", default-features = false, features = ["macros"] }
actix-http = "*"
actix-service = "*"
sqlx = { version = "*", default-features = false, features = ["runtime-tokio", "postgres"] }
serde = { version = "*", features = ["derive"] }
dotenv = "*"
