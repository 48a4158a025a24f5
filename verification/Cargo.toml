[package]
name = "onnx_ml_test"
version = "0.1.0"
edition = "2021"
publish = false

[dependencies]
# Every decoder that `image` builds by default.
image = { version = "=0.25.10", default-features = false, features = ["bmp", "dds", "exr", "ff", "gif", "hdr", "ico", "jpeg", "png", "pnm", "qoi", "tga", "tiff", "webp"] }
ndarray = "=0.16.1"
ort = { version = "=2.0.0-rc.9", default-features = false, features = ["ndarray", "load-dynamic"] }
# `ort` 2.0.0-rc.9 compiles only against the `ort-sys` of the same release.
ort-sys = { version = "=2.0.0-rc.9", default-features = false }
