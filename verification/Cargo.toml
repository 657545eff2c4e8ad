[package]
name = "wrcbus"
version = "0.1.0"
edition = "2021"
publish = false

[dependencies]
anyhow = "*"
async-broadcast = "*"
bytes = "*"
clap = { version = "*", features = ["derive"] }
colored = "*"
futures = "*"
rand = "*"
tokio = { version = "*", features = ["full"] }
tokio-serial = "*"
tokio-util = { version = "*", features = ["codec"] }
url = "*"
