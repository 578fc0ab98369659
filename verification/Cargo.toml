[package]
name = "image_converter"
version = "0.1.0"
edition = "2021"
publish = false

[dependencies]
avif-decode = "=1.0.2"
blake3 = "=1.8.7"
bytesize = "=2.7.0"
crossbeam-channel = "=0.5.17"
dssim = "=3.5.1"
glob = "=0.3.4"
home = "=0.5.12"
image = { version = "=0.24.9", features = ["webp-encoder"] }
imagequant = "=4.4.1"
lodepng = "=3.12.2"
mozjpeg = { version = "=0.10.13", default-features = false }
parking_lot = "=0.13.0"
ravif = { version = "=0.11.20", default-features = false }
rgb = "=0.8.53"
serde = { version = "=1.0.229", features = ["derive"] }
serde_yaml = "=0.9.34"
walkdir = "=2.5.0"
webp = { version = "=0.2.6", default-features = false }
