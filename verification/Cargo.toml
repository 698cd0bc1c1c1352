[package]
name = "brick_svg"
version = "0.1.0"
edition = "2021"
publish = false

[dependencies]
rusttype = "=0.9.3"
ttf-parser = "=0.15.2"
resvg = "=0.48.1"
usvg = "=0.48.1"
tiny-skia = "=0.12.0"
