[package]
name = "wolfram_library_link"
version = "0.1.0"
edition = "2021"
publish = false

[dependencies]
ref-cast = "1"
