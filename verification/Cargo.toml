[package]
name = "gptwrap"
version = "0.1.0"
edition = "2021"
publish = false

[dependencies]
anyhow = "*"
clap = { version = "*", features = ["derive"] }
fatfs = "*"
fscommon = "*"
gpt = "*"
indicatif = "*"
uuid = "*"
