[package]
name = "glyphcast"
version = "0.1.0"
edition = "2021"
publish = false

[dependencies]
image = "*"
imageproc = "*"
ab_glyph = "*"
rayon = "*"
chrono = "*"
colored = "*"
reqwest = { version = "*", default-features = false, features = ["blocking"] }
