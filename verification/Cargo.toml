[package]
name = "explorer"
version = "0.1.0"
edition = "2021"
publish = false

[dependencies]
chrono = { version = "0.4", features = ["serde"] }
ulid = "1"
serde = { version = "1", features = ["derive"] }
rusqlite = { version = "*", features = ["bundled", "chrono"] }
specta = "*"
tauri = { version = "2", default-features = false }
