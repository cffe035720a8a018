[package]
name = "swarmfs_tui"
version = "0.1.0"
edition = "2021"
publish = false

[dependencies]
anyhow = "1"
crossterm = "0.28"
hex = "0.4"
interprocess = "2"
ratatui = "0.29"
serde_json = "1"
sha2 = "0.10"
