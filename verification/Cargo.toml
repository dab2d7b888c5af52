[package]
name = "closhell-payment-gateway"
version = "0.1.0"
edition = "2021"
publish = false

[dependencies]
async-trait = "0.1"
base64 = "0.22"
chrono = "0.4"
hex = "0.4"
hmac = "0.12"
reqwest = { version = "0.12", default-features = false, features = ["json", "rustls-tls"] }
serde = { version = "1", features = ["derive"] }
serde_json = "1"
sha2 = "0.10"
thiserror = "1"
tracing = "0.1"
urlencoding = "2"
async-stripe = { version = "0.39", default-features = false, features = ["runtime-tokio-hyper-rustls", "checkout", "billing", "webhook-events"] }
