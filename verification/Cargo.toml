[package]
name = "flightcore"
version = "0.1.0"
edition = "2021"
publish = false

[dependencies]
ahrs = "=0.8.0"
nalgebra = "=0.34.2"

[dev-dependencies]
sbus-parser = "=0.1.0"
