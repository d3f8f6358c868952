[package]
name = "chip8"
version = "0.1.0"
edition = "2021"
publish = false

[dependencies]
rand = "0.9"
pixels = "0.15"
winit = "0.30"
