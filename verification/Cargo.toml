[package]
name = "imagetowebp"
version = "0.1.0"
edition = "2021"
publish = false

[dependencies]
anyhow = "1"
clap = { version = "4", features = ["derive"] }
colored = "2"
dialoguer = "0.11"
image = "0.25"
indicatif = "0.17"
rayon = "1"
walkdir = "2"
webp = "0.3"

[dev-dependencies]
tempfile = "3"
