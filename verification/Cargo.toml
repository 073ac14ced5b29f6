[package]
name = "esp_feed"
version = "0.1.0"
edition = "2021"
publish = false

[dependencies]
quick-xml = "*"
url = "*"
serde = { version = "*", features = ["derive"] }
serde_json = "*"
anyhow = "*"
log = "*"
