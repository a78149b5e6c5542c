[package]
name = "journal"
version = "0.1.0"
edition = "2021"
publish = false

[dependencies]
anyhow = "*"
crossterm = { version = "*", features = ["event-stream"] }
derive_setters = "*"
futures-util = "*"
ratatui = "*"
