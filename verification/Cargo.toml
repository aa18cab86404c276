[package]
name = "feed_reader"
version = "0.1.0"
edition = "2021"
publish = false

[dependencies]
anyhow = "=1.0.104"
askama = "=0.12.1"
base64 = "=0.22.1"
chrono = "=0.4.45"
feed-rs = "=2.4.0"
futures = "=0.3.34"
reqwest = { version = "=0.11.27", default-features = false, features = ["rustls-tls"] }
rweb = "=0.15.0"
serde = { version = "=1.0.229", features = ["derive"] }
tokio = { version = "=1.54.1", features = ["macros", "rt-multi-thread", "signal", "time"] }
tokio-postgres = "=0.7.18"
tokio-stream = { version = "=0.1.19", features = ["signal"] }
warp = "=0.3.7"
