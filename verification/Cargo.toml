[package]
name = "acme_client_route53"
version = "0.1.0"
edition = "2021"
publish = false

[dependencies]
base64 = "=0.23.1"
x509-parser = "=0.18.1"
url = "=2.5.8"
serde = { version = "1", features = ["derive"] }
serde_json = "1"
toml = "*"
tokio = { version = "1", features = ["rt-multi-thread", "macros", "time"] }
futures = "0.3"
hickory-resolver = "=0.26.3"
clap = { version = "4", features = ["derive"] }
