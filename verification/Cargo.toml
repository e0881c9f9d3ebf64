[package]
name = "blockcheck"
version = "0.1.0"
edition = "2021"
publish = false

[dependencies]
anyhow = "1"
crossterm = "0.27"
rand = "0.8"
rand_chacha = "0.3"
sha2 = "0.10"
structopt = "0.3"

[dev-dependencies]
hex = "0.4"
