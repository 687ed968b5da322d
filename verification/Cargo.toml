[package]
name = "evm_state"
version = "0.1.0"
edition = "2021"
publish = false

[dependencies]
anyhow = "1"
cid = "*"
fvm_ipld_blockstore = "*"
fvm_ipld_hamt = "*"
sha2 = "*"
