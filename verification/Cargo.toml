[package]
name = "spotlight_web"
version = "0.1.0"
edition = "2021"
publish = false

[dependencies]
open = "5"
reqwest = "0.12"
serde_json = "=1.0.154"
urlencoding = "=2.1.3"
