[package]
name = "kcs_decoder"
version = "0.1.0"
edition = "2021"

[dependencies]
riff-wave = "*"
clap = { version = "4", features = ["derive"] }
