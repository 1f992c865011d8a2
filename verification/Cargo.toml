[package]
name = "press_edge"
version = "0.1.0"
edition = "2021"
publish = false

[dependencies]
openxr = { version = "0.18", default-features = false }
