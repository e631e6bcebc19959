[package]
name = "reina_migrator"
version = "0.1.0"
edition = "2021"
publish = false

[dependencies]
serde_json = "*"
chrono = "*"
anyhow = "*"
dirs = "*"
sea-orm = "*"
tokio = { version = "*", features = ["macros", "rt-multi-thread"] }
