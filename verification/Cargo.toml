[package]
name = "wrapper_gen"
version = "0.1.0"
edition = "2021"
publish = false

[dependencies]
syn = { version = "=0.15.44", default-features = false, features = ["clone-impls", "full", "parsing", "printing"] }
quote = { version = "=0.6.13", default-features = false }
