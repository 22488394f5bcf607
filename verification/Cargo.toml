[package]
name = "shape2d"
version = "0.1.0"
edition = "2021"
publish = false

[dependencies]
lyon_tessellation = "*"
