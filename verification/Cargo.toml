[package]
name = "plot_axis"
version = "0.1.0"
edition = "2021"
publish = false

[dependencies]
epaint = "0.22"
