[package]
name = "oxicode_tui"
version = "0.1.0"
edition = "2021"
publish = false

[dependencies]
unicode-width = "0.2"
base64 = "0.22"
serde_json = "1"
crossterm = "0.28"
