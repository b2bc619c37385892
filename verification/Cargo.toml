[package]
name = "bullhorn"
version = "0.1.0"
edition = "2021"
publish = false

[dependencies]
serde_yaml = "=0.9.34"
serde_json = "=1.0.151"
slug = "=0.1.6"
rss = "=2.1.2"
serde = { version = "*", features = ["derive"] }
clap = { version = "=4.6.7", features = ["derive", "env"] }
tokio = { version = "*", features = ["rt-multi-thread", "macros"] }
reqwest = { version = "*", default-features = false, features = ["json", "rustls-tls"] }
futures = "*"
anyhow = "*"
thiserror = "*"
tracing = "*"
tracing-subscriber = { version = "*", features = ["env-filter"] }
shellexpand = "*"
oauth1-request = "=0.6.1"
git2 = { version = "=0.21.0", default-features = false }
