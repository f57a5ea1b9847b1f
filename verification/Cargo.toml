[package]
name = "tetris_game"
version = "0.1.0"
edition = "2021"
publish = false

[dependencies]
amethyst = { version = "=0.15.3", default-features = false, features = ["renderer", "empty"] }
crossbeam = "=0.7.3"
log = "=0.4.35"
