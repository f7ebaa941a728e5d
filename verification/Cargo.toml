[package]
name = "roboticsinrust"
version = "0.1.0"
edition = "2021"
publish = false

[dependencies]
nalgebra = "0.33"
kiss3d = "0.35"
