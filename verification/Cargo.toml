[package]
name = "bandits"
version = "0.1.0"
edition = "2021"

[dependencies]
rand = { version = "0.8", features = ["small_rng"] }
rand_distr = "0.4"
