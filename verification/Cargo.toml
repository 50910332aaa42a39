[package]
name = "player_gateway"
version = "0.1.0"
edition = "2021"
publish = false

[dependencies]
include_dir = "*"
mime_guess = "*"
axum = { version = "*", features = ["ws"] }
tokio = { version = "*", features = ["full"] }
futures = "*"
serde = { version = "*", features = ["derive"] }
serde_json = "*"
tracing = "*"
