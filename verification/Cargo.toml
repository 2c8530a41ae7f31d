[package]
name = "rungling_bay"
version = "0.1.0"
edition = "2021"
publish = false

[dependencies]
rand = "0.9"
ratatui = "0.30"
crossterm = "0.29"
rodio = "0.22"
tracing = "0.1"
tracing-subscriber = "0.3"
tracing-appender = "0.2"
