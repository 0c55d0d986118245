[package]
name = "tricopter_frame"
version = "0.1.0"
edition = "2021"
publish = false

[dependencies]
scad = "=1.2.2"
nalgebra = "=0.16.14"
