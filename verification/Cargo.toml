[package]
name = "gcp_dynamic_ip_updater"
version = "0.1.0"
edition = "2021"
publish = false

[dependencies]
regex = "=1.13.1"
serde_json = "=1.0.154"
serde = { version = "=1.0.229", features = ["derive"] }
reqwest = { version = "=0.12.28", default-features = false, features = ["blocking", "json", "rustls-tls"] }
log = "=0.4.34"
env_logger = "=0.11.11"
structopt = "=0.3.26"
