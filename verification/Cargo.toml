[package]
name = "why"
version = "0.1.0"
edition = "2021"
publish = false

[dependencies]
clap = { version = "4", features = ["derive"] }
colored = "2"
crossterm = "0.28"
ratatui = "0.29"
tempfile = "3"
