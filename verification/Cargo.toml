[package]
name = "slog-gelf"
version = "0.1.0"
edition = "2021"
publish = false

[dependencies]
chrono = "0.4"
rand = "0.8"
serde = "1"
serde_json = "1"
slog = "2"
