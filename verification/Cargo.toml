[package]
name = "websocket_server"
version = "0.1.0"
edition = "2021"
publish = false

[dependencies]
ws = "*"
slog = "*"
serde = { version = "*", features = ["derive"] }

[dev-dependencies]
serde_json = "*"
