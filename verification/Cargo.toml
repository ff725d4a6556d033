[package]
name = "commander"
version = "0.1.0"
edition = "2021"
publish = false

[dependencies]
dirs = "*"
trash = "*"
tokio = { version = "*", features = ["rt", "sync", "time", "macros"] }
open = "*"
