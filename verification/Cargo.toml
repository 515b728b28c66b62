[package]
name = "tex-rs"
version = "0.2.5"
edition = "2021"
publish = false

[dependencies]
rayon = "1"
async-std = "1"
tokio = { version = "1", features = ["rt-multi-thread", "macros"] }
