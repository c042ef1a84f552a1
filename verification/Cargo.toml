[package]
name = "rsrl_game"
version = "0.1.0"
edition = "2021"
publish = false

[dependencies]
serde = { version = "=1.0.229", features = ["derive"] }
serde_json = "=1.0.154"
futures = "=0.3.34"
websocket = { version = "=0.26.5", default-features = false }
slog = "=2.8.2"
slog-async = "=2.8.0"
slog-term = "=2.9.2"
