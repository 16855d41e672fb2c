[package]
name = "datafusion_count"
version = "0.1.0"
edition = "2021"
publish = false

[dependencies]
arrow = { version = "6", default-features = false }
chrono = "0.4"
