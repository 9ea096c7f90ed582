[package]
name = "spectrum"
version = "0.1.0"
edition = "2021"
publish = false

[dependencies]
clap = "2"
jack = "*"
random_color = "*"
rs_ws281x = "*"
rustfft = "*"
