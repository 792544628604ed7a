[package]
name = "value_cipher"
version = "0.1.0"
edition = "2021"
publish = false

[dependencies]
base64 = "0.22"
chacha20poly1305 = "0.10"
getrandom = "0.2"
wasm-bindgen = "0.2"
