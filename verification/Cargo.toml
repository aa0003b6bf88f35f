[package]
name = "iced_plotters"
version = "0.1.0"
edition = "2021"
publish = false

[dependencies]
iced = { version = "0.3", features = ["canvas"] }
plotters = { version = "0.2", default-features = false }
