[package]
name = "id_classifier"
version = "0.1.0"
edition = "2021"
publish = false

[dependencies]
anyhow = "1"
bytes = "1"
image = { version = "0.24", default-features = false, features = ["jpeg", "png"] }
prost = "*"
tract-onnx = "*"
