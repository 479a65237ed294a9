[package]
name = "yaci"
version = "0.1.0"
edition = "2021"
publish = false

[dependencies]
rand = "0.8"
pixels = "0.10"
winit = "0.27"
winit_input_helper = "0.13"
macroquad = "0.3"
