[package]
name = "redit"
version = "0.1.0"
edition = "2021"
publish = false

[dependencies]
gtk = "0.18"
pango = "0.18"
pangocairo = "0.18"
