[package]
name = "quaint"
version = "0.1.0"
edition = "2021"
publish = false

[dependencies]
rusqlite = "*"
serde_json = "1"
