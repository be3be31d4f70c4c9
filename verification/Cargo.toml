[package]
name = "romsearch"
version = "0.1.0"
edition = "2021"
publish = false

[dependencies]
scraper = "0.21"
urlencoding = "2"
serde = { version = "1", features = ["derive"] }
anyhow = "1"
futures = "0.3"
tokio = { version = "1", features = ["macros", "rt-multi-thread"] }
reqwest = "0.12"
reqwest-middleware = "0.4"
reqwest-retry = "0.7"
meilisearch-sdk = "0.27"
dioxus = { version = "0.6", features = ["web"] }
dioxus-logger = "0.6"
dioxus-sdk = "0.6"
async-std = "1"

[dev-dependencies]
logos = "0.14"
