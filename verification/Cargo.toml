[package]
name = "block_rpc"
version = "0.1.0"
edition = "2021"
publish = false

[dependencies]
jsonrpc-core = "*"
serde_json = "*"
