[package]
name = "coolq_sdk_rust"
version = "0.1.0"
edition = "2021"
publish = false

[dependencies]
base64 = "0.13"
byteorder = "1"
darling = "0.14"
proc-macro2 = "1"
quote = "1"
syn = { version = "1", features = ["full"] }
