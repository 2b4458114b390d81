[package]
name = "simpler_economy"
version = "0.1.0"
edition = "2021"
publish = false

[dependencies]
rand = "0.9"
itertools = "*"
circular-buffer = "*"
hexx = "*"
ordered-float = "*"
rayon = "*"
bevy = { version = "0.17", default-features = false }
