[package]
name = "clido"
version = "0.1.0"
edition = "2021"
publish = false

[dependencies]
anyhow = "1"
bincode = "1"
chrono = "0.4"
clap = { version = "4", features = ["derive"] }
dirs-next = "2"
prettytable-rs = "0.10"
rand = "0.8"
tempfile = "3"
