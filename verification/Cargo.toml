[package]
name = "playwright_driver"
version = "0.1.0"
edition = "2021"
publish = false

[dependencies]
dirs = "=4.0.0"
zip = { version = "=0.6.6", default-features = false, features = ["deflate"] }
