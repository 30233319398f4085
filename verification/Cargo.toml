[package]
name = "database"
version = "0.1.0"
edition = "2021"
publish = false

[dependencies]
sea-orm = { version = "0.12", default-features = false, features = ["macros"] }
dunce = "1"
anyhow = "1"
async-graphql = "7"
tokio = { version = "1", features = ["sync", "rt", "macros"] }
tokio-util = "0.7"
log = "0.4"
tracing-subscriber = { version = "0.3", features = ["env-filter"] }
