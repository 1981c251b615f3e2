[package]
name = "tower-sessions-surrealdb-store"
version = "0.1.0"
edition = "2021"
publish = false

[dependencies]
async-trait = "0.1"
rmp-serde = "1"
serde_json = "1"
surrealdb = { version = "*", default-features = false }
time = "0.3"
tower-sessions-core = { version = "*", features = ["deletion-task"] }
tracing = "0.1"
