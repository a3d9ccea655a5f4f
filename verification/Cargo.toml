[package]
name = "trip_analyzer"
version = "0.1.0"
edition = "2021"
publish = false

[dependencies]
hdrhistogram = "*"
csv = "*"
serde = { version = "*", features = ["derive"] }
clap = "*"
