[package]
name = "winit-toyos"
version = "0.1.0"
edition = "2021"
publish = false

[dependencies]
smol_str = "0.3"
winit-core = "0.31.0-beta.1"
dpi = "0.1"
raw-window-handle = "0.6"
