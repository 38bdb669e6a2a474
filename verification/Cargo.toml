[package]
name = "mpvlayer"
version = "0.1.0"
edition = "2021"
publish = false

[dependencies]
anyhow = "1"
crossterm = "0.28"
fs4 = "*"
rand = "0.9"
ratatui = "0.29"
serde_json = "1"
