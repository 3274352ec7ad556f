[package]
name = "http_base_uri"
version = "0.1.0"
edition = "2021"
publish = false

[dependencies]
http = "=1.3.1"
