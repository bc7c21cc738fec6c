[package]
name = "text_batch"
version = "0.1.0"
edition = "2021"
publish = false

[dependencies]
bitmap-font = "*"
gfx = "*"
