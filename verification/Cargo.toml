[package]
name = "colored_noise"
version = "0.1.0"
edition = "2021"
publish = false

[dependencies]
rodio = { version = "*", default-features = false, features = ["noise"] }
rand = "*"
rand_xoshiro = "*"
clap = { version = "*", features = ["derive"] }
ctrlc = "*"
tracing = "*"
tracing-subscriber = { version = "*", features = ["env-filter"] }
