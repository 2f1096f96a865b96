[package]
name = "grid_shapes"
version = "0.1.0"
edition = "2021"
publish = false

[dependencies]
coord_2d = "*"
grid_2d = "*"
serde = { version = "*", features = ["derive"] }
