[package]
name = "todo_service"
version = "0.1.0"
edition = "2021"
publish = false

[dependencies]
rocket = { version = "0.5", features = ["json"] }
rusqlite = "=0.41.0"
serde = { version = "=1.0.229", features = ["derive"] }
