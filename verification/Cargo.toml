[package]
name = "blockdash"
version = "0.1.0"
edition = "2021"
publish = false

[dependencies]
color-eyre = "=0.6.5"
colorgrad = { version = "=0.8.0", features = ["preset"] }
crossterm = "=0.29.0"
rand = "=0.10.3"
ratatui = "=0.30.2"
tui-bar-graph = "=0.3.6"
