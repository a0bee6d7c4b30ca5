[package]
name = "evm"
version = "0.1.0"
edition = "2021"
publish = false

[dependencies]
anyhow = "*"
clap = { version = "*", features = ["derive"] }
flate2 = "*"
hex = "*"
reqwest = { version = "*", default-features = false }
scraper = "*"
serde = { version = "*", features = ["derive"] }
serde_json = "*"
sha2 = "*"
tar = "*"
tokio = { version = "*", features = ["macros", "rt-multi-thread"] }
uuid = { version = "*", features = ["v4"] }
zip = { version = "*", default-features = false, features = ["deflate"] }
