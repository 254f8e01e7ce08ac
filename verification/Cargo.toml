[package]
name = "lazyisi"
version = "0.1.0"
edition = "2021"
publish = false

[dependencies]
crossterm = "=0.28.1"
diff = "=0.1.13"
ratatui = "=0.29.0"
