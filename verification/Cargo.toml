[package]
name = "mcsrvmonitor"
version = "0.1.0"
edition = "2021"
publish = false

[dependencies]
chrono = "0.4"
regex = "1"
serde = { version = "1", features = ["derive"] }
serde_json = "1"
serde_yaml = "0.9"
rusqlite = { version = "*", features = ["bundled"] }
rust-mc-status = "*"
tokio = { version = "1", features = ["full"] }
rocket = { version = "0.5", features = ["json"] }
rocket_cors = "*"
rocket_dyn_templates = { version = "*", features = ["tera"] }
