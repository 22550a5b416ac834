[package]
name = "axum_yaml"
version = "0.1.0"
edition = "2021"
publish = false

[dependencies]
async-trait = "0.1"
axum = { version = "0.7", default-features = false }
axum-core = "0.4"
bytes = "1"
http = "1"
mime = "0.3"
serde = "1"
serde_path_to_error = "0.1"
serde_yaml = "0.9"
