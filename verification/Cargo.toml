[package]
name = "beacon"
version = "0.1.0"
edition = "2021"
publish = false

[dependencies]
regex = "1"
base64 = "0.22"
hmac = "0.12"
sha2 = "0.10"
croner = "2"
chrono = "0.4"
url = "2"
serde_json = "1"
toml = "0.8"
pdf-extract = "*"
serde = { version = "1", features = ["derive"] }
serde_yaml = "0.9"
tokio = { version = "1", features = ["full"] }
axum = "0.8"
reqwest = { version = "0.12", default-features = false, features = ["json", "rustls-tls", "multipart"] }
rusqlite = "*"
uuid = { version = "1", features = ["v4"] }
tracing = "0.1"
anyhow = "1"
async-trait = "0.1"
futures = "0.3"
flate2 = "1"
tar = "0.4"
tempfile = "3"
which = "*"
directories = "*"
notify = "*"
scraper = "*"
