[package]
name = "mneme"
version = "0.1.0"
edition = "2021"
publish = false

[dependencies]
ulid = "1"
time = "0.3"
tokio = { version = "1", features = ["sync", "macros", "rt-multi-thread"] }
tracing = "0.1"
tracing-subscriber = { version = "0.3", features = ["env-filter", "fmt"] }
anyhow = "1"
async-trait = "0.1"
serde = { version = "1", features = ["derive"] }
