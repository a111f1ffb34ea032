[package]
name = "swd_decode"
version = "0.1.0"
edition = "2021"
publish = false

[dependencies]
clap = { version = "4", features = ["derive"] }
colored = "2"

[dev-dependencies]
nom = "7"
