[package]
name = "rusty_bubbletea"
version = "0.1.0"
edition = "2021"
publish = false

[dependencies]
crossterm = "0.29"
libc = "0.2"
