[package]
name = "ytmtui"
version = "0.1.0"
edition = "2021"
publish = false

[dependencies]
anyhow = "1"
serde = { version = "1", features = ["derive"] }
serde_json = "1"
ratatui = "0.29"
crossterm = "0.28"
interprocess = "2"
sysinfo = "0.32"
zbus = "5"
