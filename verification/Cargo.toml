[package]
name = "safercom"
version = "0.1.0"
edition = "2021"
publish = false

[dependencies]
proc-macro2 = "1"
syn = { version = "1", features = ["full"] }

[dev-dependencies]
regex = "1"
