[package]
name = "slintext"
version = "0.1.0"
edition = "2021"
publish = false

[dependencies]
rusqlite = { version = "=0.41.1", features = ["bundled", "functions"] }
serde = { version = "=1.0.229", features = ["derive"] }
serde_rusqlite = "=0.44.0"
uuid = { version = "=1.29.1", features = ["v4"] }
slint = { version = "=1.18.1", default-features = false, features = ["std", "compat-1-2"] }
reqwest = { version = "=0.13.5", default-features = false, features = ["json"] }
tokio = { version = "=1.54.1", features = ["macros", "rt-multi-thread"] }
