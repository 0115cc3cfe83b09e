[package]
name = "newsletter"
version = "0.1.0"
edition = "2021"
publish = false

[dependencies]
validator = "0.20"
rand = "0.9"
uuid = { version = "1", features = ["v4"] }
serde = { version = "1", features = ["derive"] }
actix-web = { version = "4", default-features = false }
sqlx = { version = "0.8", default-features = false, features = ["runtime-tokio", "postgres", "chrono", "uuid"] }
reqwest = { version = "0.12", default-features = false, features = ["json"] }
tokio = { version = "1", features = ["rt-multi-thread", "macros"] }
config = { version = "0.14", default-features = false, features = ["yaml"] }
secrecy = { version = "0.10", features = ["serde"] }
