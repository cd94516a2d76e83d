[package]
name = "sitemap-rs"
version = "0.4.0"
edition = "2021"
publish = false

[dependencies]
chrono = "=0.4.45"
xml-builder = "=0.5.4"
