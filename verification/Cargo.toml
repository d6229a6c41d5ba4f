[package]
name = "rubiks"
version = "0.1.0"
edition = "2021"
publish = false

[dependencies]
rand = "=0.10.3"
three-d = { version = "=0.19.0", features = ["text"] }
