[package]
name = "org_sog"
version = "0.1.0"
edition = "2021"
publish = false

[dependencies]
axum = "=0.6.20"
bson = { version = "=2.15.0", features = ["chrono-0_4"] }
chrono = { version = "=0.4.45", features = ["serde"] }
futures = "=0.3.34"
mongodb = { version = "=2.8.2", features = ["bson-chrono-0_4"] }
serde = { version = "=1.0.229", features = ["derive"] }
tokio = { version = "=1.54.1", features = ["macros", "rt-multi-thread"] }
