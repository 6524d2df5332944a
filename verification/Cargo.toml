[package]
name = "adsorption"
version = "0.1.0"
edition = "2021"
publish = false

[dependencies]
nalgebra = "0.32"
serde = { version = "1", features = ["derive"] }
serde_yaml = "0.9"
nom = "7"
regex = "1"
glob = "0.3"
rayon = "1"
indicatif = "0.17"
castep-periodic-table = "*"
