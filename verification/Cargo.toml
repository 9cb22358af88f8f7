[package]
name = "delta_sharing"
version = "0.1.0"
edition = "2021"
publish = false

[dependencies]
chrono = "*"
url = "*"
reqwest = { version = "*", default-features = false }
