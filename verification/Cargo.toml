[package]
name = "glyph"
version = "0.1.0"
edition = "2021"
publish = false

[dependencies]
owned_ttf_parser = "*"
