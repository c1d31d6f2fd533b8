[package]
name = "newscrape"
version = "0.1.0"
edition = "2021"
publish = false

[dependencies]
scraper = "*"
chrono = "*"
reqwest = { version = "*", default-features = false }
tokio = { version = "*", features = ["macros", "rt"] }
lambda_runtime = "*"
serde = { version = "*", features = ["derive"] }
serde_json = "*"
