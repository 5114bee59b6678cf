[package]
name = "notion_sync"
version = "0.1.0"
edition = "2021"
publish = false

[dependencies]
anyhow = "1"
chrono = { version = "0.4", default-features = false, features = ["std"] }
sea-orm = { version = "1", default-features = false, features = ["macros"] }
serde_json = "1"
