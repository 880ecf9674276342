[package]
name = "ens_gateway"
version = "0.1.0"
edition = "2021"
publish = false

[dependencies]
wasmi = "0.9"
hyper = "=0.11.27"
futures = "=0.1.31"
tokio-core = "=0.1.18"
ipfsapi = "=0.4.0"
wee_alloc = "=0.4.5"
