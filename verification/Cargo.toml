[package]
name = "caliper"
version = "0.1.0"
edition = "2021"
publish = false

[dependencies]
bincode = "1.3"
svg = "*"
nfd2 = "*"
iced = { version = "0.3", features = ["canvas", "image", "svg", "tokio"] }
iced_native = "0.4"
iced_graphics = "0.2"
iced_futures = "0.3"
