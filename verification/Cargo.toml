[package]
name = "batchimg"
version = "0.1.0"
edition = "2021"
publish = false

[dependencies]
image = { version = "*", default-features = false, features = ["png", "jpeg", "gif"] }
clap = { version = "*", features = ["derive"] }
rayon = "*"
indicatif = "*"
atomic_float = "*"
rexiv2 = "*"
