[package]
name = "wayle_services"
version = "0.1.0"
edition = "2021"
publish = false

[dependencies]
chrono = "=0.4.45"
derive_more = { version = "=2.1.1", features = ["debug"] }
futures = "=0.3.34"
png = "=0.18.1"
rusqlite = { version = "=0.41.1", features = ["bundled"] }
serde = { version = "=1.0.229", features = ["derive"] }
serde_json = "=1.0.154"
tokio = { version = "=1.54.1", features = ["macros", "rt", "sync", "time"] }
tokio-util = "=0.7.20"
tracing = "=0.1.44"
zbus = { version = "=5.19.0", default-features = false, features = ["tokio"] }
