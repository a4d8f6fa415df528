[package]
name = "fractal_generator"
version = "0.1.0"
edition = "2021"
publish = false

[dependencies]
crossterm = "0.27"
num-complex = "0.4"
rand = "0.8"
ratatui = "0.26"
rayon = "1"
serde = { version = "1", features = ["derive"] }
serde_json = "1"
