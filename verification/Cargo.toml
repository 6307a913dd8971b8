[package]
name = "runtime_cfparser"
version = "0.1.0"
edition = "2021"
publish = false

[dependencies]
anyhow = "1"
mutf8 = "*"

[dev-dependencies]
nom = "7"
