[package]
name = "herdr-jcode"
version = "0.1.0"
edition = "2021"
publish = false

[dependencies]
toml_edit = "0.22"
serde_json = "1"
tempfile = "3"
