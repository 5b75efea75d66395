[package]
name = "semi_honest_ot"
version = "0.1.0"
edition = "2021"
publish = false

[dependencies]
curv-kzen = "0.7"
sha2 = "0.9"

[dev-dependencies]
itertools = "0.10"
rand = "0.7"
