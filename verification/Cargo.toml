[package]
name = "action_graph"
version = "0.1.0"
edition = "2021"
publish = false

[dependencies]
indexmap = "*"
whoami = "*"
anyhow = "*"

[dev-dependencies]
regex = "*"
