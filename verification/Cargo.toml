[package]
name = "tape"
version = "0.1.0"
edition = "2021"
publish = false

[dependencies]
blake3 = "*"
brine-tree = "*"
crankx = "*"
packx = "*"
