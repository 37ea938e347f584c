[package]
name = "atsisbroken"
version = "0.1.0"
edition = "2021"
publish = false

[dependencies]
serde = { version = "=1.0.229", features = ["derive"] }
serde_json = "=1.0.154"
toml = "=1.1.8"
base64 = "=0.23.1"
clap = { version = "=4.6.7", features = ["derive"] }
anyhow = "=1.0.104"
thiserror = "=2.0.21"
html5ever = "=0.39.0"
markup5ever_rcdom = "=0.39.0"
reqwest = { version = "=0.12.28", default-features = false, features = ["blocking", "rustls-tls"] }
tokio = { version = "=1.54.1", features = ["rt-multi-thread", "time"] }
futures = "=0.3.34"
chromiumoxide = { version = "=0.8.0", default-features = false, features = ["tokio-runtime"] }
