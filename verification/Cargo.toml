[package]
name = "chart_panels"
version = "0.1.0"
edition = "2021"
publish = false

[dependencies]
imgui = "0.7"
implot = "0.6"
