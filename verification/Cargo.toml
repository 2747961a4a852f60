[package]
name = "mirror_ai"
version = "0.1.0"
edition = "2021"
publish = false

[dependencies]
serde_json = "1"
serde = { version = "1", features = ["derive"] }
axum = { version = "0.6", features = ["macros"] }
chrono = "0.4"
dotenv = "0.15"
google-calendar3 = "4"
http = "0.2"
reqwest = { version = "0.11", features = ["json"] }
tokio = { version = "1", features = ["full"] }
tower-http = { version = "0.4", features = ["cors"] }
