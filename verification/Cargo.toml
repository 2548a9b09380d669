[package]
name = "softrender"
version = "0.1.0"
edition = "2021"
publish = false

[dependencies]
fastnoise-lite = "*"
image = "*"
minifb = "*"
nalgebra-glm = "*"
once_cell = "*"
rand = "*"
rodio = "*"
tobj = "*"
