[package]
name = "nectar"
version = "0.1.0"
edition = "2021"
publish = false

[dependencies]
bytes = "0.4"
tokio = "0.1"
