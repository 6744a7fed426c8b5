[package]
name = "substrate_pallets"
version = "0.1.0"
edition = "2021"
publish = false

[dependencies]
parity-scale-codec = { version = "=3.7.5", features = ["derive"] }
sp-core = "=43.0.0"
sp-io = "=49.0.0"
sp-runtime = "=49.0.0"
log = "=0.4.35"
frame-support = "*"
frame-system = "*"
