[package]
name = "fonts_viewer"
version = "0.1.0"
edition = "2021"
publish = false

[dependencies]
indexmap = "=2.14.2"
serde = { version = "=1.0.229", features = ["derive"] }
toml = "=1.1.6"
iced = { version = "=0.14.0", default-features = false, features = ["svg", "tiny-skia", "thread-pool", "x11"] }
iced_aw = "=0.14.1"
