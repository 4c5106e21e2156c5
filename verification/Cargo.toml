[package]
name = "deo"
version = "0.1.0"
edition = "2021"
publish = false

[dependencies]
clap = { version = "4", features = ["derive"] }
console = "0.15"
dialoguer = { version = "0.11", features = ["fuzzy-select"] }
dirs = "*"
regex = "1"
serde_json = "1"
walkdir = "2"
