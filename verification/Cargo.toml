[package]
name = "cortx-core"
version = "0.1.0"
edition = "2021"
publish = false

[dependencies]
regex = "1"
parking_lot = "*"
log = "*"
chrono = { version = "*", features = ["serde"] }
uuid = { version = "*", features = ["v4"] }
serde = { version = "1", features = ["derive"] }
serde_json = "1"
thiserror = "*"
walkdir = "*"
fs2 = "*"
directories = "*"
clap = { version = "*", features = ["derive"] }
anyhow = "1"
env_logger = "*"
crossterm = "*"
ratatui = "*"
ansi-to-tui = "*"
