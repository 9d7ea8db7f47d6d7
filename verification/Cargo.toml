[package]
name = "gl_types"
version = "0.1.0"
edition = "2021"
publish = false

[dependencies]
nalgebra = "0.33"
num = "0.4"

[dev-dependencies]
rand = "0.8"
