[package]
name = "fbscreenshot"
version = "0.1.0"
edition = "2021"
publish = false

[dependencies]
argh = "*"
image = "*"
nix = { version = "*", features = ["ioctl"] }
