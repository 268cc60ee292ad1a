[package]
name = "grok_zh"
version = "0.1.0"
edition = "2021"
publish = false

[dependencies]
semver = "1"
sha2 = "0.10"
unicode-width = "0.2"
url = "2"
reqwest = { version = "0.12", default-features = false, features = ["json", "stream", "rustls-tls"] }
serde = { version = "1", features = ["derive"] }
serde_json = "1"
anyhow = "1"
clap = { version = "4", features = ["derive"] }
tokio = { version = "1", features = ["fs", "io-util", "rt-multi-thread", "macros"] }
futures = "0.3"
indicatif = "0.17"
zip = { version = "2", default-features = false, features = ["deflate"] }
tar = "0.4"
flate2 = "1"
