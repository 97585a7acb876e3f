[package]
name = "llm_runner"
version = "0.1.0"
edition = "2021"
publish = false

[dependencies]
serde_json = "1"
regex = "1"
serde = { version = "1", features = ["derive"] }
anyhow = "1"
log = "0.4"
futures-util = "0.3"
eventsource-stream = "0.2"
tokio = { version = "1", features = ["rt", "macros", "sync", "time"] }
reqwest = { version = "0.12", default-features = false, features = ["json", "stream", "rustls-tls"] }
