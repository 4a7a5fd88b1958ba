[package]
name = "dedup_relay"
version = "0.1.0"
edition = "2021"
publish = false

[dependencies]
anyhow = "1"
async-trait = "0.1"
deepseek-api = "*"
log = "0.4"
reqwest = { version = "0.12", features = ["json"] }
sea-orm-migration = { version = "1", default-features = false }
serde = { version = "1", features = ["derive"] }
url = "2"
