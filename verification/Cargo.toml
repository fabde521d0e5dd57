[package]
name = "doh_gateway"
version = "0.1.0"
edition = "2021"
publish = false

[dependencies]
base64 = "0.13"
clap = "2"
domain = { version = "0.6", features = ["resolv"] }
env_logger = "0.9"
hyper = { version = "0.14", features = ["full"] }
log = "0.4"
serde = { version = "1", features = ["derive"] }
serde_json = "1"
tokio = { version = "1", features = ["full"] }
uriparse = "0.6"
url = "2"
