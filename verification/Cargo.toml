[package]
name = "arknights_macro"
version = "0.1.0"
edition = "2021"
publish = false

[dependencies]
serde = { version = "1", features = ["derive"] }
serde_json = "1"
toml = "*"
tokio = { version = "1", features = ["rt", "rt-multi-thread", "sync", "time", "fs", "macros"] }
crossbeam-channel = "0.5"
dirs = "*"
log = "0.4"
env_logger = "*"
chrono = "*"
thiserror = "*"
libc = "0.2"
