[package]
name = "taskust"
version = "0.1.0"
edition = "2021"
publish = false

[dependencies]
chrono = "0.4"
clap = { version = "4", features = ["derive"] }
clap_complete = "4"
comfy-table = "7"
crossterm = "*"
dirs = "*"
ratatui = "*"
serde = { version = "1", features = ["derive"] }
serde_json = "1"
