[package]
name = "sly"
version = "0.1.0"
edition = "2021"
publish = false

[dependencies]
twilight-embed-builder = "0.10"
twilight-model = "0.10"
twilight-http = "0.10"
twilight-gateway = "0.10"
twilight-cache-inmemory = "0.10"
regex = "1"
rand = "0.8"
reqwest = { version = "0.11", default-features = false, features = ["json", "rustls-tls"] }
tokio = { version = "1", features = ["macros", "rt-multi-thread"] }
futures = "0.3"
serde = { version = "1", features = ["derive"] }
serde_json = "1"
