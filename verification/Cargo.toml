[package]
name = "multisig"
version = "0.1.0"
edition = "2021"
publish = false

[dependencies]
parity-scale-codec = { version = "3", features = ["derive"] }
scale-info = { version = "2", features = ["derive"] }
sp-io = "*"
sp-runtime = "*"
frame-support = "*"
frame-system = "*"
