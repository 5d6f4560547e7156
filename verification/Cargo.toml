[package]
name = "vorticity"
version = "0.1.0"
edition = "2021"
publish = false

[dependencies]
anyhow = "1"
colorgrad = "0.7"
image = { version = "0.25", default-features = false, features = ["png"] }
indicatif = "0.17"
ndarray = "0.16"
noise = "0.9"
num = "0.4"
ocl = "0.19"
plotters = { version = "0.3", default-features = false, features = ["svg_backend", "line_series"] }
