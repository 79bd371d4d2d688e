[package]
name = "steel_registry"
version = "0.1.0"
edition = "2021"
publish = false

[dependencies]
rustc-hash = "*"
simdnbt = "*"
glam = "*"
serde = { version = "1", features = ["derive"] }
serde_json = "1"
heck = "*"
proc-macro2 = "1"
quote = "1"
