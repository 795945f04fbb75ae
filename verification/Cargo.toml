[package]
name = "bili_crawler"
version = "0.1.0"
edition = "2021"
publish = false

[dependencies]
serde = { version = "=1.0.229", features = ["derive"] }
serde_json = "=1.0.154"
clap = "=4.6.7"
headless_chrome = "=1.0.22"
tokio = { version = "=1.54.1", features = ["macros", "rt-multi-thread"] }
mongodb = "=3.9.1"
bson = "=2.15.0"
futures-util = "=0.3.34"
rusqlite = { version = "=0.32.1", features = ["bundled"] }
tokio-postgres = { version = "=0.7.18", features = ["with-serde_json-1", "with-chrono-0_4"] }
chrono = "=0.4.45"
