[package]
name = "cargo-llms-txt"
version = "0.1.0"
edition = "2021"
publish = false

[dependencies]
anyhow = "1"
chrono = "0.4"
clap = { version = "4", features = ["derive"] }
syn = { version = "2", features = ["full"] }
toml = "0.8"
walkdir = "2"
