[package]
name = "wavefront"
version = "0.1.0"
edition = "2021"
publish = false

[dependencies]
rand = "0.4"
cgmath = "0.16"
piston = "*"
piston2d-graphics = "*"
pistoncore-glutin_window = "*"
piston2d-opengl_graphics = "*"
