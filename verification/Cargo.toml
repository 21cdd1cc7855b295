[package]
name = "pdfium_render"
version = "0.8.0"
edition = "2021"
publish = false

[dependencies]
image = { version = "0.25", default-features = false }
libloading = "0.8"
once_cell = "1"
vecmath = "1"
