[package]
name = "ztproxy"
version = "0.1.0"
edition = "2021"
publish = false

[dependencies]
ipnet = { version = "2", features = ["serde"] }
serde = { version = "1", features = ["derive"] }
serde_json = "1"
clap = "2"
failure = "0.1"
reqwest = { version = "0.11", default-features = false, features = ["blocking"] }
