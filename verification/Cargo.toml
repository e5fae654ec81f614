[package]
name = "wiseowl_brain"
version = "0.1.0"
edition = "2021"
publish = false

[dependencies]
heapless = "0.8"
sha2 = "0.10"
