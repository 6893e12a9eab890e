[package]
name = "disk_widget"
version = "0.1.0"
edition = "2021"
publish = false

[dependencies]
crossterm = "0.20"
tui = { version = "0.16", default-features = false, features = ["crossterm"] }
