[package]
name = "maya_umbrella"
version = "0.1.0"
edition = "2021"
publish = false

[dependencies]
regex = "1"
encoding_rs = "0.8"
tokio = { version = "1", features = ["fs", "io-util", "rt-multi-thread"] }
futures = "0.3"
lazy_static = "1"
cpython = "0.7"
