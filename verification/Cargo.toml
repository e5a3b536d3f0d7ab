[package]
name = "helm_forge"
version = "0.1.0"
edition = "2021"
publish = false

[dependencies]
iac-forge = "*"
serde = { version = "1", features = ["derive"] }
serde_json = "1"
serde_yaml_ng = "*"
