[package]
name = "semantic_release_tui"
version = "0.1.0"
edition = "2021"
publish = false

[dependencies]
crossterm = "=0.29.0"
ratatui = "=0.30.2"
dirs = "=7.0.0"
chrono = "=0.4.45"
tui-textarea = "=0.6.1"
regex = "=1.13.1"
serde = { version = "=1.0.229", features = ["derive"] }
serde_json = "=1.0.154"
clap = { version = "=4.6.7", features = ["derive"] }
serde_yaml = "0.9"
