[package]
name = "glutin_window"
version = "0.1.0"
edition = "2021"
publish = false

[dependencies]
glutin = "=0.1.6"
pistoncore-input = "=1.0.1"
pistoncore-window = "=0.3.0"
