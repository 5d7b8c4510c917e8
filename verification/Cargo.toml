[package]
name = "galaxy_rs"
version = "0.1.0"
edition = "2021"
publish = false

[dependencies]
petgraph = "0.5"
rand = "0.7"
las = "0.7"
