[package]
name = "roster_manager"
version = "0.1.0"
edition = "2021"
publish = false

[dependencies]
ratatui = "0.29"
crossterm = "0.28"
serde_json = "1"
tracing = "0.1"
