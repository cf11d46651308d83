[package]
name = "miden_vm"
version = "0.1.0"
edition = "2021"
publish = false

[dependencies]
miden-crypto = { version = "0.10", default-features = false }
winter-math = "=0.9.3"
winter-utils = "=0.9.3"

[dev-dependencies]
winter-rand-utils = "=0.9.0"
