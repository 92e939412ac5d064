[package]
name = "quantum_kernel"
version = "0.1.0"
edition = "2021"

[dependencies]
spin = "=0.9.9"
x86_64 = { version = "=0.14.13", default-features = false, features = ["instructions"] }
