[package]
name = "unpinbot"
version = "0.1.0"
edition = "2021"
rust-version = "1.95"
publish = false

[dependencies]
log = "0.4"
pretty_env_logger = "0.5"
reqwest = { version = "=0.12.28", default-features = false, features = ["socks"] }
serde = { version = "=1.0.229", features = ["derive"] }
serde_json = "=1.0.154"
takecell = "=0.1.1"
teloxide = { version = "=0.17.0", default-features = false, features = ["ctrlc_handler", "macros", "rustls", "throttle"] }
tokio = { version = "1", features = ["macros", "rt-multi-thread", "signal", "time"] }
