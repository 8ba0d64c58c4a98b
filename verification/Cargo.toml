[package]
name = "scarab"
version = "0.1.0"
edition = "2021"
publish = false

[dependencies]
wasmlib = "*"
syn = { version = "1", features = ["full", "extra-traits"] }
quote = "1"
proc-macro2 = "1"
rand_core = "0.6"
