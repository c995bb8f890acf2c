[package]
name = "constraint_resolver"
version = "0.1.0"
edition = "2021"
publish = false

[dependencies]
wasm-bindgen = "=0.2.129"
wasmtime = { version = "=36.0.19", default-features = false, features = ["cranelift", "runtime", "std", "wat"] }
