[package]
name = "uv_python"
version = "0.1.0"
edition = "2021"
publish = false

[dependencies]
uv-pep440 = "=0.0.60"
uv-pep508 = "=0.0.60"
serde = "1"
schemars = "1"
