[package]
name = "cli_errors"
version = "0.1.0"
edition = "2021"
publish = false

[dependencies]
reqwest = { version = "*", default-features = false }
rmp-serde = "*"
