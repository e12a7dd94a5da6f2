[package]
name = "engine_bindgen"
version = "0.1.0"
edition = "2021"
publish = false

[dependencies]
anyhow = "1"
clang-ast = "0.1"
glam = "0.24"
num_cpus = "1"
serde = { version = "1", features = ["derive"] }
serde_json = "1"
