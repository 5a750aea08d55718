[package]
name = "starknet_bridge"
version = "0.1.0"
edition = "2021"
publish = false

[dependencies]
starknet-core = "=0.8.1"
jsonrpsee = { version = "=0.26.1", features = ["server-core", "jsonrpsee-types"] }
log = "=0.4.34"
parity-scale-codec = { version = "=3.7.5", features = ["derive"] }
scale-info = { version = "=2.11.6", features = ["derive"] }
