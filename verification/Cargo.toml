[package]
name = "text-analyzer"
version = "0.1.0"
edition = "2021"
publish = false

[dependencies]
atty = "0.2"
clap = { version = "4", features = ["derive"] }
crossterm = "0.27"
ratatui = "0.26"
