[package]
name = "optimization_eg551_practical"
version = "0.1.0"
edition = "2021"
publish = false

[dependencies]
plotters = { version = "*", default-features = false, features = ["bitmap_backend", "bitmap_encoder", "all_series", "all_elements", "full_palette"] }
