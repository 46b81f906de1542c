[package]
name = "livesearch"
version = "0.1.0"
edition = "2021"
publish = false

[dependencies]
grep = "*"
regex = "*"
crossbeam-channel = "*"
parking_lot = "*"
lock_api = "*"
crossterm = "*"
ignore = "*"
ratatui = "*"
argh = "*"
eyre = "*"
unicode-width = "*"
