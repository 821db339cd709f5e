[package]
name = "image_toolkit"
version = "0.1.0"
edition = "2021"
publish = false

[dependencies]
image = "=0.25.10"
fast_image_resize = { version = "=6.1.0", features = ["image"] }
lodepng = "=3.12.2"
imagequant = "=4.4.1"
oxipng = "=10.2.1"
mozjpeg = "=0.10.13"
thiserror = "=2.0.21"
