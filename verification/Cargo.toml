[package]
name = "plskit"
version = "0.5.0"
edition = "2021"
publish = false

[dependencies]
faer = "*"
rand = "*"
rand_chacha = "*"
getrandom = "*"
rayon = "1"
thiserror = "2"
procrustes = "*"
