[package]
name = "ebay_bot"
version = "0.1.0"
edition = "2021"
publish = false

[dependencies]
anyhow = "*"
chrono = "*"
clap = { version = "*", features = ["derive"] }
dotenvy = "*"
env_logger = "*"
fantoccini = { version = "*", default-features = false, features = ["rustls-tls"] }
log = "*"
serde = { version = "*", features = ["derive"] }
tempfile = "*"
tokio = { version = "*", features = ["macros", "rt-multi-thread", "time"] }
which = "*"
