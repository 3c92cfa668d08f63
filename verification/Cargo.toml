[package]
name = "wmm"
version = "0.1.0"
edition = "2021"
publish = false

[dependencies]
cty = "0.2"
spin = "0.9"
time = { version = "0.3", default-features = false }
