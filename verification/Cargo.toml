[package]
name = "toby"
version = "0.1.0"
edition = "2021"
publish = false

[dependencies]
anyhow = "=1.0.104"
chrono = "=0.4.45"
takecell = "=0.1.1"
teloxide = "=0.17.0"
