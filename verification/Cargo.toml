[package]
name = "roccat_vulcan_api_rs"
version = "0.1.0"
edition = "2021"
publish = false

[dependencies]
hidapi = "*"
