[package]
name = "ultimate_tex"
version = "0.1.0"
edition = "2021"
publish = false

[dependencies]
image_dds = "=0.7.2"
nutexb = { version = "=0.7.0", features = ["ddsfile"] }
image = { version = "=0.25.10", default-features = false, features = ["png", "tiff", "jpeg"] }
link-cplusplus = "1"
clap = { version = "=4.6.7", features = ["derive"] }
rayon = "=1.12.0"
globwalk = "=0.9.1"
