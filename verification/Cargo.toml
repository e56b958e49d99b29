[package]
name = "mobius"
version = "0.1.0"
edition = "2021"
publish = false

[dependencies]
approx = "0.5"
nalgebra = { version = "0.33", features = ["serde-serialize"] }
phf = { version = "0.11", features = ["macros"] }
serde = { version = "1", features = ["derive"] }
serde_json = "1"
