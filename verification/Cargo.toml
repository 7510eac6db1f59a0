[package]
name = "tsumari"
version = "0.1.0"
edition = "2021"
publish = false

[dependencies]
anyhow = "=1.0.104"
futures = "=0.3.34"
serde = { version = "=1.0.229", features = ["derive"] }
thrussh = "=0.35.6"
thrussh-keys = "0.22"
tokio = { version = "=1.54.1", features = ["sync"] }
