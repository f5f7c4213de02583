[package]
name = "greend"
version = "0.1.0"
edition = "2021"
publish = false

[dependencies]
chrono = "0.4"
plist = "1"
serde = { version = "1", features = ["derive"] }
rusqlite = { version = "0.32", features = ["bundled"] }
sysinfo = "0.33"
tokio = { version = "1", features = ["full"] }
tracing = "0.1"
tracing-subscriber = { version = "0.3", features = ["env-filter"] }
thiserror = "2"
