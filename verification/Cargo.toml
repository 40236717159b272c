[package]
name = "dirlist"
version = "0.1.0"
edition = "2021"
publish = false

[dependencies]
byte-unit = "5"
chrono = "0.4"
clap = { version = "4", features = ["derive"] }
owo-colors = "4"
serde_json = "1"
tabled = "*"
