[package]
name = "bindgen_core"
version = "0.1.0"
edition = "2021"
publish = false

[dependencies]
syn = { version = "=0.15.44", features = ["full"] }
