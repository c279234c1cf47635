[package]
name = "property_api"
version = "0.1.0"
edition = "2021"
publish = false

[dependencies]
axum = { version = "0.5", features = ["multipart"] }
axum-extra = { version = "0.3", features = ["spa"] }
chrono = { version = "0.4", features = ["serde"] }
serde = { version = "1", features = ["derive"] }
serde_json = "1"
sqlx = { version = "0.6", features = ["runtime-tokio-rustls", "postgres", "chrono"] }
tokio = { version = "1", features = ["full"] }
tower-http = { version = "0.3", features = ["fs"] }
uuid = { version = "1", features = ["v4"] }
yew = "0.19"
yew-router = "0.16"
