[package]
name = "rust_feed_ingestor"
version = "0.1.0"
edition = "2021"
publish = false

[dependencies]
ammonia = "4"
anyhow = "1"
chromiumoxide = { version = "0.7", default-features = false, features = ["tokio-runtime"] }
chrono = "0.4"
config = { version = "0.14", default-features = false, features = ["toml"] }
feed-rs = "2"
futures = "0.3"
humantime = "2"
humantime-serde = "1"
hyper = { version = "0.14", features = ["server", "http1", "tcp"] }
once_cell = "1"
prometheus = "0.13"
reqwest = { version = "0.11", default-features = false, features = ["rustls-tls"] }
serde = { version = "1", features = ["derive"] }
serde_json = "1"
sqlx = { version = "0.8", default-features = false, features = ["runtime-tokio", "postgres", "chrono", "uuid", "migrate"] }
thiserror = "1"
tokio = { version = "1", features = ["macros", "rt-multi-thread", "time"] }
tracing = "0.1"
tracing-subscriber = { version = "0.3", features = ["env-filter"] }
url = "2"
uuid = { version = "1", features = ["v4"] }
