[package]
name = "aocmd-dl"
version = "0.1.0"
edition = "2021"
publish = false

[dependencies]
chrono = "0.4"
clap = { version = "4", features = ["derive"] }
html2md = "0.2"
reqwest = "0.11"
scraper = "*"
tokio = { version = "1", features = ["full"] }
