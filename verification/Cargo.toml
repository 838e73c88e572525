[package]
name = "ppaass_proxy"
version = "0.1.0"
edition = "2021"
publish = false

[dependencies]
anyhow = "1"
tokio = { version = "1", features = ["full"] }
dns-lookup = "*"
serde = { version = "1", features = ["derive"] }
serde_json = "1"
futures = "0.3"
tower = "*"
rsa = "0.9"
