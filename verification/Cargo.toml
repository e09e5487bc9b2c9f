[package]
name = "sad_boy"
version = "0.1.0"
edition = "2021"
publish = false

[dependencies]
winnow = "*"
clap = { version = "*", features = ["derive"] }
color-eyre = "*"
crossterm = "*"
ratatui = "*"
base64 = "*"
signal-hook = "*"
