[package]
name = "migration_checker"
version = "0.1.0"
edition = "2021"
publish = false

[dependencies]
anyhow = "1"
async-std = { version = "1", features = ["attributes"] }
serde = { version = "1", features = ["derive"] }
serde_json = "1"
tiberius = { version = "0.12", features = ["sql-browser-async-std"] }
