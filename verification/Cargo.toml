[package]
name = "gbars"
version = "0.1.0"
edition = "2021"
publish = false

[dependencies]
azul = "0.1.0"
clap = { version = "2.33", features = ["yaml"] }
gl = "0.14"
glutin = "0.22"
piston = "*"
piston2d-opengl_graphics = "*"
pistoncore-glutin_window = "*"
portaudio = "0.7"
