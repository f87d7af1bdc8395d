[package]
name = "weld"
version = "0.1.0"
edition = "2021"
publish = false

[dependencies]
argh = "0.1"
target-lexicon = "0.12"
smol = "2"
async-channel = "2"
futures-lite = "2"
rustix = { version = "0.38", features = ["mm", "param"] }
