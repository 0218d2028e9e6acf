[package]
name = "harmonizer"
version = "0.1.0"
edition = "2021"
publish = false

[dependencies]
deno_core = "*"
serde = { version = "*", features = ["derive"] }
serde_json = "*"
thiserror = "*"
