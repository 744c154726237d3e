[package]
name = "gl_lib"
version = "0.1.0"
edition = "2021"
publish = false

[dependencies]
cgmath = "0.18"
gl = "0.14"
glfw = "*"
image = { version = "*", default-features = false, features = ["jpeg"] }
