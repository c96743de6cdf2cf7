[package]
name = "bestle"
version = "0.1.0"
edition = "2021"
publish = false

[dependencies]
rand = "0.8"
clipboard = "0.5"
eframe = "0.18"
