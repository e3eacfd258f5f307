[package]
name = "spinning_cube"
version = "0.1.0"
edition = "2021"
publish = false

[dependencies]
cgmath = "=0.17.0"
gl = "=0.14.0"
glutin = "=0.21.2"
obj-rs = "0.5"
