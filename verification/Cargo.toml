[package]
name = "finnhub_cli"
version = "0.1.0"
edition = "2021"
publish = false

[dependencies]
getopts = "0.2"
serde_json = "1"
reqwest = { version = "0.12", default-features = false, features = ["rustls-tls"] }
tokio = { version = "1", features = ["macros", "rt-multi-thread"] }
