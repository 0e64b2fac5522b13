[package]
name = "tags"
version = "0.1.0"
edition = "2021"
publish = false

[dependencies]
clap = "=2.34.0"
serde_json = { version = "=1.0.154", features = ["preserve_order"] }
taglib = "=1.0.0"
tempfile = "=3.27.0"
