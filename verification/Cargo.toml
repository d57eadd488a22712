[package]
name = "jsmoke"
version = "0.1.0"
edition = "2021"
publish = false

[dependencies]
regex = "1"
colored = "*"
clap = { version = "4", features = ["derive"] }
thiserror = "*"
