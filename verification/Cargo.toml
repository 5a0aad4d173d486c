[package]
name = "leanvm_xmss"
version = "0.1.0"
edition = "2021"
publish = false

[dependencies]
ethereum_ssz = "0.10"
postcard = { version = "1.1", features = ["alloc"] }
rand = "0.9"
serde_json = "1"
tikv-jemallocator = "0.6"
