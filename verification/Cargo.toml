[package]
name = "profont"
version = "0.7.0"
edition = "2021"
publish = false

[dependencies]
allsorts = "*"
anyhow = "*"
embedded-graphics = "*"
embedded-graphics-simulator = "*"
image = { version = "*", default-features = false, features = ["png"] }
num-iter = "*"
pico-args = "*"
