[package]
name = "base_block_prover"
version = "0.1.0"
edition = "2021"
publish = false

[dependencies]
alloy-consensus = "*"
alloy-primitives = "*"
alloy-rlp = "*"
alloy-rpc-types-debug = "*"
qos_core = "*"
qos_nsm = "*"
qos_json = "*"
serde = { version = "1", features = ["derive"] }
serde_json = "1"
sha2 = "0.10"
thiserror = "2"
