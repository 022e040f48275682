[package]
name = "fluent_plots"
version = "0.1.0"
edition = "2021"
publish = false

[dependencies]
polars = { version = "*", default-features = false }
plotters = { version = "*", default-features = false, features = ["bitmap_backend", "bitmap_encoder"] }
