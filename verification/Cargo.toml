[package]
name = "pickle_fuzzer"
version = "0.1.0"
edition = "2021"
publish = false

[dependencies]
arbitrary = "1"
rand = "0.9"
rand_chacha = "0.9"
clap = { version = "4", features = ["derive"] }
color-eyre = "0.6"
rayon = "1"
serde = { version = "1", features = ["derive"] }
