[package]
name = "detail_error"
version = "0.1.0"
edition = "2021"
publish = false

[dependencies]
Inflector = { version = "=0.11.4", default-features = false }
darling = "=0.24.1"
proc-macro2 = "=1.0.107"
quote = "=1.0.47"
syn = { version = "=3.0.9", features = ["full"] }
