[package]
name = "example_runner"
version = "0.1.0"
edition = "2021"
publish = false

[dependencies]
clap = { version = "*", features = ["derive"] }
colored = "*"
golem-examples = "*"
nanoid = "*"
regex = "*"
