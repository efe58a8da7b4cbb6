[package]
name = "jolt_vm"
version = "0.1.0"
edition = "2021"
publish = false

[dependencies]
ark-serialize = { version = "0.4", features = ["derive"] }
ark-std = "0.4"
rayon = "1"
strum = { version = "0.26", features = ["derive"] }
tracing = "0.1"
