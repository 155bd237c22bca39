[package]
name = "ox_game"
version = "0.1.0"
edition = "2021"
publish = false

[dependencies]
wasm-bindgen = "0.2"
yew = "0.17"
