[package]
name = "vertica"
version = "0.1.0"
edition = "2021"
publish = false

[dependencies]
sha2 = "=0.10.9"
rusqlite = { version = "=0.32.1", features = ["bundled"] }
chrono = "=0.4.45"
uuid = { version = "=1.29.1", features = ["v4"] }
serde = { version = "=1.0.229", features = ["derive"] }
