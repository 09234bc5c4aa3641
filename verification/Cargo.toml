[package]
name = "bw_tui"
version = "0.1.0"
edition = "2021"
publish = false

[dependencies]
anyhow = "1"
base64 = "0.22"
crossterm = "0.28"
fuzzy-matcher = "0.3.7"
ratatui = "0.29"
serde = { version = "1", features = ["derive"] }
serde_json = "1"
