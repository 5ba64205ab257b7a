[package]
name = "scatterplot"
version = "0.1.0"
edition = "2021"
publish = false

[dependencies]
once_cell = "=1.21.4"
plotters = { version = "=0.3.7", default-features = false, features = ["ab_glyph", "bitmap_backend", "bitmap_encoder"] }
plotters-bitmap = { version = "=0.3.7", default-features = false, features = ["image_encoder"] }
