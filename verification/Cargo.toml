[package]
name = "uvl_macros"
version = "0.1.0"
edition = "2021"
publish = false

[dependencies]
evalexpr = "12"
serde_json = "1"
toml = "0.8"
syn = { version = "2", features = ["full"] }
quote = "1"
proc-macro2 = "1"
