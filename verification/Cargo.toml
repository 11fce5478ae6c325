[package]
name = "spectral"
version = "0.1.0"
edition = "2021"
publish = false

[dependencies]
hound = "*"
rustfft = "*"
plotters = { version = "*", default-features = false, features = ["bitmap_backend", "bitmap_encoder", "all_series", "all_elements", "ab_glyph"] }
