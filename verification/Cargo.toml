[package]
name = "tuitty"
version = "0.1.0"
edition = "2021"
publish = false

[dependencies]
unicode-segmentation = "=1.10.1"
unicode-width = "=0.1.10"
