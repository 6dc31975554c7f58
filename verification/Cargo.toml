[package]
name = "posts_service"
version = "0.1.0"
edition = "2021"
publish = false

[dependencies]
axum = "*"
diesel = "*"
diesel-async = { version = "*", features = ["postgres"] }
dotenvy = "*"
serde = { version = "*", features = ["derive"] }
tokio = { version = "*", features = ["full"] }
