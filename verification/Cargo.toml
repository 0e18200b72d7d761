[package]
name = "int64"
version = "0.1.0"
edition = "2021"
publish = false

[dependencies]
random-number = "0.1"
napi = { version = "2", default-features = false, features = ["napi4"] }
napi-derive = "2"
