[package]
name = "voxel-maths"
version = "0.1.0"
edition = "2021"
publish = false

[dependencies]
glam = "*"
likely_stable = "*"
