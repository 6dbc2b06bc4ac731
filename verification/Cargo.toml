[package]
name = "git_chest"
version = "0.1.0"
edition = "2021"
publish = false

[dependencies]
chrono = "0.4"
dirs = "*"
serde = { version = "1", features = ["derive"] }
sqlx = { version = "0.8", default-features = false, features = ["derive", "runtime-tokio", "sqlite"] }
tauri = { version = "2", default-features = false }
tokio = { version = "1", features = ["fs", "sync", "time"] }
tracing = "0.1"
