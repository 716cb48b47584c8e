[package]
name = "func_bridge"
version = "0.1.0"
edition = "2021"
publish = false

[dependencies]
magnus = "0.4"
wasmtime = { version = "2.0", default-features = false, features = ["cranelift"] }
