[package]
name = "screeps_build"
version = "0.1.0"
edition = "2021"
publish = false

[dependencies]
serde = { version = "1", features = ["derive"] }
serde_repr = "0.1"
parse-display = "*"
num-derive = "0.4"
num-traits = "0.2"

[dev-dependencies]
regex = "1"
