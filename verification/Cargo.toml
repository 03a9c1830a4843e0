[package]
name = "sherlock-desktop"
version = "0.1.0"
edition = "2021"
publish = false

[dependencies]
base64 = "=0.22.1"
image = { version = "=0.25.10", default-features = false, features = ["rayon", "bmp", "dds", "exr", "ff", "gif", "ico", "jpeg", "png", "pnm", "qoi", "tga", "tiff", "webp"] }
log = "=0.4.35"
serde_json = "=1.0.154"
ureq = { version = "=3.5.1", default-features = false, features = ["json"] }
which = "=8.0.6"
