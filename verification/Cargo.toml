[package]
name = "chess_gui"
version = "0.1.0"
edition = "2021"
publish = false

[dependencies]
piston = "=0.53.2"
piston2d-graphics = "=0.42.0"
piston2d-opengl_graphics = "0.81"
pistoncore-glutin_window = "=0.69.0"
