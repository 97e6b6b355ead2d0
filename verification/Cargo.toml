[package]
name = "gb_core"
version = "0.1.0"
edition = "2021"
publish = false

[dependencies]
anyhow = "1"
clap = { version = "4", features = ["derive"] }
cpal = "0.15"
crossterm = "0.28"
ratatui = "0.29"
ringbuf = "0.4"
tracing = "0.1"
tracing-subscriber = "0.3"
