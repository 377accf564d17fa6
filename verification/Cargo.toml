[package]
name = "resvg_path"
version = "0.1.0"
edition = "2021"
publish = false

[dependencies]
log = "0.4"
tiny-skia = "0.11"
usvg = { version = "0.37", default-features = false }
