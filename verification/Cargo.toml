[package]
name = "iced_m3"
version = "0.1.0"
edition = "2021"
publish = false

[dependencies]
iced = { version = "=0.14.0", default-features = false, features = ["tiny-skia", "thread-pool", "x11", "advanced"] }
unicode-segmentation = "=1.13.3"
