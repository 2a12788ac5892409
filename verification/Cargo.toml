[package]
name = "docs_extract"
version = "0.1.0"
edition = "2021"
publish = false

[dependencies]
htmd = "=0.5.6"
regex = "=1.13.1"
scraper = { version = "=0.18.1", features = ["deterministic"] }
serde = { version = "=1.0.229", features = ["derive"] }
serde_json = "=1.0.154"
