[package]
name = "actix_navigation_service"
version = "0.1.0"
edition = "2021"
publish = false

[dependencies]
actix-http = "3"
actix-service = "2"
actix-web = { version = "4", default-features = false, features = ["macros"] }
futures = "0.3"
mongodb = "2"
serde = { version = "1", features = ["derive"] }
serde_json = "1"
tokio = { version = "1", features = ["rt-multi-thread"] }
