[package]
name = "subterfuge"
version = "0.1.0"
edition = "2021"
publish = false

[dependencies]
rand = "*"
rayon = "*"
anyhow = "*"
clap = { version = "*", features = ["derive"] }
plotters = "*"
