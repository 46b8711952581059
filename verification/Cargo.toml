[package]
name = "fev"
version = "0.1.0"
edition = "2021"
publish = false

[dependencies]
bytemuck = "1"
libloading = "0.8"
log = "0.4"
once_cell = "1"
raw-window-handle = "0.5"
