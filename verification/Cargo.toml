[package]
name = "iced_plot"
version = "0.1.0"
edition = "2021"
publish = false

[dependencies]
indexmap = "=2.14.2"
glam = "=0.34.2"
bytemuck = { version = "=1.25.2", features = ["derive"] }
iced = { version = "=0.14.0", default-features = false, features = ["tiny-skia", "canvas", "x11", "thread-pool"] }
