[package]
name = "arpscan"
version = "0.1.0"
edition = "2021"
publish = false

[dependencies]
anyhow = "*"
futures = "*"
mac_address = "*"
pnet = "*"
tokio = { version = "*", features = ["rt", "rt-multi-thread", "time"] }
