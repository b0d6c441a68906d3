[package]
name = "reqif_rs"
version = "0.1.0"
edition = "2021"
publish = false

[dependencies]
anyhow = "=1.0.104"
chrono = "=0.4.45"
xml-rs = "0.8"
yaserde = "=0.9.2"
yaserde_derive = "=0.9.2"
