[package]
name = "pathtracer"
version = "0.1.0"
edition = "2021"
publish = false

[dependencies]
ncollide3d = "*"
rand = "*"
rayon = "*"
image = "*"
serde = { version = "*", features = ["derive"] }
serde_json = "*"
obj = "*"
