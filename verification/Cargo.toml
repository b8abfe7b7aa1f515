[package]
name = "raytracer"
version = "0.1.0"
edition = "2021"

[dependencies]
image = { version = "0.24", default-features = false, features = ["png"] }
indicatif = "0.17"
rand = "0.8"
