[package]
name = "steam_input"
version = "0.1.0"
edition = "2021"
publish = false

[dependencies]
steamworks = "=0.12.2"
steamworks-sys = "=0.12.2"
napi = { version = "=3.14.0", features = ["napi6"] }
napi-derive = "=3.6.10"
