[package]
name = "flightroute"
version = "0.1.0"
edition = "2021"
publish = false

[dependencies]
csv = "1"
redis = { version = "0.25", features = ["tokio-comp"] }
serde = { version = "1", features = ["derive"] }
sqlx = { version = "0.7", default-features = false, features = ["runtime-tokio-rustls", "postgres"] }
tokio = { version = "1", features = ["macros", "rt-multi-thread", "time"] }
