[package]
name = "armor_calc"
version = "0.1.0"
edition = "2021"
publish = false

[dependencies]
clap = { version = "*", features = ["derive"] }
fixed = "*"
cordic = "*"
