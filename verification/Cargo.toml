[package]
name = "type-cli"
version = "0.1.0"
edition = "2021"
publish = false

[dependencies]
regex = "1"
syn = { version = "1", features = ["full"] }
thiserror = "1"
