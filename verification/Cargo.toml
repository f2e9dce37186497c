[package]
name = "arcy"
version = "0.1.0"
edition = "2021"
publish = false

[dependencies]
async-trait = "*"
tokio = { version = "*", default-features = false, features = ["sync", "rt"] }
