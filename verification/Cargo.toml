[package]
name = "http_client"
version = "0.1.0"
edition = "2021"
publish = false

[dependencies]
async-curl = "=0.2.8"
curl = "=0.4.50"
url = "=2.5.8"
tokio = { version = "=1.53.2", features = ["rt", "macros"] }

[dev-dependencies]
http = "=1.5.0"
