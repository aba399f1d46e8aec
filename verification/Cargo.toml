[package]
name = "binaural_beats"
version = "0.1.0"
edition = "2021"
publish = false

[dependencies]
anyhow = "*"
colored = "*"
cpal = "*"
crossterm = "*"
inquire = "*"
