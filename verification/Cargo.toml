[package]
name = "pueue"
version = "0.1.0"
edition = "2021"
publish = false

[dependencies]
chrono = "0.4"
comfy-table = "7"
crossterm = "0.28"
