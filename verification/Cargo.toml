[package]
name = "image_compressor"
version = "0.1.0"
edition = "2021"
publish = false

[dependencies]
clap = { version = "4", features = ["derive"] }
image = "0.24"
oxipng = { version = "9", default-features = false, features = ["parallel", "zopfli"] }
webp = "0.2"
