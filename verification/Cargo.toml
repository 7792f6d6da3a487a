[package]
name = "md2notion"
version = "0.1.0"
edition = "2021"
publish = false

[dependencies]
markdown = "*"
notion-client = "*"
serde_json = "*"
