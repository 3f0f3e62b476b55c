[package]
name = "niagara"
version = "0.1.0"
edition = "2021"
publish = false

[dependencies]
ash = "0.24"
winit = "0.18"
