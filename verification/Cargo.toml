[package]
name = "spacetime_math"
version = "0.1.0"
edition = "2021"
publish = false

[dependencies]
const_soft_float = "=0.1.4"
glam = "=0.34.1"
nalgebra = "=0.35.0"
serde = { version = "=1.0.229", features = ["derive"] }
spacetimedb = "=2.1.0"
