[package]
name = "todo_store"
version = "0.1.0"
edition = "2021"

[dependencies]
rusqlite = { version = "*", features = ["bundled"] }
serde = { version = "*", features = ["derive"] }
