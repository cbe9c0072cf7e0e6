[package]
name = "ticketing"
version = "0.1.0"
edition = "2021"
publish = false

[dependencies]
askama = "0.12"
askama_axum = "0.3"
axum = "0.6"
chrono = "0.4"
config = "0.13"
pwhash = "1"
serde = { version = "1", features = ["derive"] }
serde_json = "1"
sqlx = { version = "0.7", default-features = false, features = ["runtime-tokio", "postgres", "chrono", "macros"] }
tokio = { version = "1", features = ["full"] }
tower-cookies = "0.9"
uuid = { version = "1", features = ["v4"] }
