[package]
name = "verifier_router"
version = "0.1.0"
edition = "2021"
publish = false

[dependencies]
anchor-lang = "*"
risc0-zkvm = { version = "*", default-features = false }
