[package]
name = "gamedorp"
version = "0.1.0"
edition = "2021"
publish = false

[dependencies]
bit-vec = "0.6"
log = "0.4"
rust-ini = "0.13"
sdl2 = "0.32"
time = "0.1"
