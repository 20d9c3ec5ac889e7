[package]
name = "diff_engine"
version = "0.1.0"
edition = "2021"
publish = false

[dependencies]
similar = "2"
rayon = "1"
regex = "1"
ahash = "0.8"
napi = "2"
napi-derive = "2"
