[package]
name = "kmon"
version = "0.1.0"
edition = "2021"
publish = false

[dependencies]
unicode-width = "0.1"
clap = "2.34"
termion = "1.5"
tui = "0.6"
