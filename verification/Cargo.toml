[package]
name = "selium_core"
version = "0.1.0"
edition = "2021"
publish = false

[dependencies]
anyhow = "=1.0.104"
bincode = "1.3"
bytes = "=1.12.1"
futures = "=0.3.34"
quinn = "=0.10.2"
rustls = "=0.21.12"
rustls-pemfile = "=1.0.4"
serde = { version = "1", features = ["derive"] }
tokio = { version = "=1.54.1", features = ["macros", "rt-multi-thread", "time", "sync", "signal"] }
tokio-util = { version = "=0.7.20", features = ["codec"] }
