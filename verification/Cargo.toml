[package]
name = "timescale-extension-utils"
version = "0.1.0"
edition = "2021"
publish = false

[dependencies]
quote = "1"
syn = { version = "1", features = ["full"] }
