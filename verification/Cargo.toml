[package]
name = "live_relay"
version = "0.1.0"
edition = "2021"
publish = false

[dependencies]
anyhow = "*"
chrono = "*"
dptree = "*"
html-escape = "*"
once_cell = "*"
reqwest = { version = "*", default-features = false, features = ["rustls-tls"] }
serde = { version = "*", features = ["derive"] }
serde_json = "*"
shlex = "*"
takecell = "=0.1.1"
teloxide = { version = "*", default-features = false, features = ["rustls", "ctrlc_handler", "macros"] }
tokio = { version = "*", features = ["process", "rt-multi-thread", "macros", "io-util", "sync", "signal"] }
toml = "*"
