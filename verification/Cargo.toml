[package]
name = "ed"
version = "0.1.0"
edition = "2021"
publish = false

[dependencies]
unicode-segmentation = "=1.13.3"
unicode-width = "=0.1.14"
crossterm = "=0.29.0"
clap = { version = "=4.6.7", features = ["derive"] }
