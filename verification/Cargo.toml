[package]
name = "sigsynth"
version = "0.1.0"
edition = "2021"
publish = false

[dependencies]
syn = { version = "=1.0.109", features = ["full"] }
quote = "=1.0.47"
eyre = "=0.6.14"
