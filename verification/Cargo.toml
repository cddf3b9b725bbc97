[package]
name = "physis"
version = "0.1.0"
edition = "2021"
publish = false

[dependencies]
half = "2"

[dev-dependencies]
binrw = "=0.14.2"
