[package]
name = "parser"
version = "0.1.0"
edition = "2021"
publish = false

[dependencies]
wit-bindgen-rt = "0.35.0"
