[package]
name = "dino_runner"
version = "0.1.0"
edition = "2021"
publish = false

[dependencies]
agb = "=0.20.5"

[dev-dependencies]
agb_fixnum = "=0.20.5"
