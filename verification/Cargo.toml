[package]
name = "indexerd"
version = "0.1.0"
edition = "2021"
publish = false

[dependencies]
anyhow = "=1.0.104"
base64 = "=0.23.1"
crossbeam-channel = "=0.5.17"
ctrlc = "=3.5.2"
env_logger = "=0.11.11"
log = "=0.4.34"
mysql = { version = "=28.0.3", default-features = false, features = ["minimal-rust", "buffer-pool"] }
mysql_cdc = "=0.2.1"
serde = { version = "=1.0.229", features = ["derive"] }
serde_json = "=1.0.151"
tiny_http = "=0.12.0"
url = "=2.5.8"
