[package]
name = "lattice_graph"
version = "0.1.0"
edition = "2021"
publish = false

[dependencies]
petgraph = "0.6"
fixedbitset = "0.4"
const-generic-wrap = "*"
hex2d = "*"
itertools = "*"
serde = { version = "1", features = ["derive"] }
