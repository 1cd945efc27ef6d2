[package]
name = "minipascal"
version = "0.1.0"
edition = "2021"
publish = false

[dependencies]
clap = { version = "3", features = ["derive"] }
colored = "2"
log = "0.4"
stderrlog = "0.5"
