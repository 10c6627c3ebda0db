[package]
name = "benilla_app"
version = "0.1.0"
edition = "2021"
publish = false

[dependencies]
bytemuck = "1"
serde = "=1.0.229"
toml = "=0.9.12"
