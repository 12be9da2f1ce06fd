[package]
name = "vanity_generator"
version = "0.1.0"
edition = "2021"
publish = false

[dependencies]
hex = "0.4"
rayon = "1"
sha3 = "0.10"
