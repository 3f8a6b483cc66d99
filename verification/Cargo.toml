[package]
name = "seeded_xxhash"
version = "0.1.0"
edition = "2021"
publish = false

[dependencies]
getrandom = "0.2"
xxhash-rust = { version = "0.8", default-features = false, features = ["xxh32", "xxh64", "xxh3"] }
