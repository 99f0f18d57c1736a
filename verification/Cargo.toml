[package]
name = "walkpwd"
version = "0.1.0"
edition = "2021"
publish = false

[dependencies]
arboard = { version = "*", default-features = false }
clap = { version = "*", features = ["derive"] }
directories = "*"
passwords = "*"
serde = { version = "*", features = ["derive"] }
serde_json = "*"
