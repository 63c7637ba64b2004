[package]
name = "battery_gauge"
version = "0.1.0"
edition = "2021"
publish = false

[dependencies]
anyhow = "1"
battery = "0.7"
crossterm = "0.27"
ratatui = "0.26"
