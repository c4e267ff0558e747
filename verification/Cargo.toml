[package]
name = "spdmlib"
version = "0.1.0"
edition = "2021"
publish = false

[dependencies]
spin = "=0.9.9"

[dev-dependencies]
sha2 = "0.10"
