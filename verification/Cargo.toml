[package]
name = "shade_storm"
version = "0.1.0"
edition = "2021"
publish = false

[dependencies]
toml = "=0.8.23"
chrono = "=0.4.45"
clap = "=2.34.0"
fps_counter = "=2.0.0"
glium = "=0.34.0"
notify = "=4.0.18"
winit = "=0.29.15"
