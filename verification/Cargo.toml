[package]
name = "per_spatium"
version = "0.1.0"
edition = "2021"
publish = false

[dependencies]
rand = "*"
