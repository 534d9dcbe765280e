[package]
name = "tomlconf"
version = "0.1.0"
edition = "2021"
publish = false

[dependencies]
directories = "*"
serde = { version = "*", features = ["derive"] }
toml = "*"
