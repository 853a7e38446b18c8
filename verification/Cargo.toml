[package]
name = "blockfrost-http-client"
version = "0.1.0"
edition = "2021"
publish = false

[dependencies]
async-trait = "=0.1.92"
hex = "=0.4.3"
reqwest = "=0.11.27"
serde = { version = "=1.0.229", features = ["derive"] }
serde_json = "=1.0.154"
thiserror = "=1.0.69"
toml = "0.8"
url = "=2.5.8"
