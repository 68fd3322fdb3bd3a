[package]
name = "web_reader"
version = "0.1.0"
edition = "2021"
publish = false

[dependencies]
async-trait = "=0.1.92"
bytes = "=1.12.1"
dirs = "=5.0.1"
fuzzy-matcher = "=0.3.7"
open = "=5.4.5"
reqwest = { version = "=0.12.28", features = ["blocking"] }
rusqlite = { version = "=0.31.0", features = ["bundled"] }
scraper = "=0.19.1"
tokio = { version = "=1.54.1", features = ["rt"] }

[dev-dependencies]
tempfile = "=3.27.0"
