[package]
name = "unit_of_work"
version = "0.1.0"
edition = "2021"
publish = false

[dependencies]
actix-web = { version = "4", default-features = false, features = ["macros"] }
anyhow = "1"
dotenv = "0.15"
env_logger = "0.11"
log = "0.4"
sea-orm = { version = "1", default-features = false, features = ["macros", "runtime-tokio", "sqlx-postgres"] }
serde = { version = "1", features = ["derive"] }
tokio = { version = "1", features = ["rt-multi-thread", "sync"] }
