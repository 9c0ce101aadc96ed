[package]
name = "vpx_decoder"
version = "0.1.0"
edition = "2021"
publish = false

[dependencies]
media-core = "*"
media-codec = "*"
smallvec = "*"
ctor = "*"
