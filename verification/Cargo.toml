[package]
name = "fontpool"
version = "0.1.0"
edition = "2021"
publish = false

[dependencies]
font-kit = "*"
harfbuzz_rs = "*"
lyon_path = "*"
nalgebra = "*"
sha1 = "*"
