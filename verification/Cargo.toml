[package]
name = "presenter"
version = "0.1.0"
edition = "2021"
publish = false

[dependencies]
argon2 = "*"
axum = { version = "*", features = ["ws"] }
axum-extra = { version = "*", features = ["typed-header"] }
chrono = "*"
futures = "*"
r2d2 = "*"
r2d2_sqlite = "*"
rand = "*"
reqwest = { version = "*", default-features = false }
rusqlite = { version = "*", features = ["bundled", "chrono", "uuid"] }
serde = { version = "*", features = ["derive"] }
serde_json = "*"
tokio = { version = "*", features = ["full"] }
tokio-util = "*"
tower = "*"
tower-http = { version = "*", features = ["cors", "fs", "set-header", "catch-panic", "compression-gzip"] }
uuid = { version = "*", features = ["v4"] }
