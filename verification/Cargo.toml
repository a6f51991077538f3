[package]
name = "crankshaft_tui"
version = "0.1.0"
edition = "2021"
publish = false

[dependencies]
chrono = "*"
string-interner = "*"
tokio-util = "*"
crossterm = "*"
ratatui = "*"
rand = "*"
