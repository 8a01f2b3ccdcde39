[package]
name = "wasm_pack_bindgen"
version = "0.1.0"
edition = "2021"
publish = false

[dependencies]
binary-install = "0.0.2"
failure = "0.1"
