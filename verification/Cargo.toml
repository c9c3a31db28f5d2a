[package]
name = "narrow_phase"
version = "0.1.0"
edition = "2021"
publish = false

[dependencies]
arrayvec = "0.7"
nalgebra = { version = "0.33", features = ["serde-serialize"] }
num-traits = "0.2"
serde = { version = "1", features = ["derive"] }
