[package]
name = "speedrun-com-api"
version = "0.1.0"
edition = "2021"
publish = false

[dependencies]
anyhow = "=1.0.104"
arrayvec = { version = "=0.5.2", features = ["serde"] }
bytes = "=0.5.6"
futures-util = "=0.3.34"
http = "=0.2.12"
hyper = "=0.13.10"
hyper-rustls = "=0.21.0"
livesplit-core = "=0.13.0"
serde = { version = "=1.0.229", features = ["derive"] }
serde_json = "=1.0.154"
snafu = "=0.6.10"
termimad = "=0.35.5"
tokio = { version = "=0.2.25", features = ["full"] }
url = "=2.5.8"
