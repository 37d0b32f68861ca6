[package]
name = "chang"
version = "0.1.0"
edition = "2021"
publish = false

[dependencies]
anyhow = "1"
base64 = "=0.22.1"
clap = { version = "4", features = ["derive"] }
crossterm = "0.29"
jsonwebtoken = "=9.3.1"
log = "0.4"
ratatui = "0.30"
serde_json = "=1.0.154"
tui-textarea = "=0.4.0"
