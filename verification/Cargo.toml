[package]
name = "kate_rpc"
version = "0.1.0"
edition = "2021"
publish = false

[dependencies]
lru = "=0.18.5"
parity-scale-codec = "=3.7.5"
blake2 = "=0.10.6"
dusk-plonk = "=0.8.2"
dusk-bytes = "=0.1.7"
derive-hex = "<0.1.3"
twox-hash = "*"
jsonrpc-core = "=18.0.0"
