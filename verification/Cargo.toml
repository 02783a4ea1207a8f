[package]
name = "sortify"
version = "0.1.0"
edition = "2021"
publish = false

[dependencies]
anyhow = "*"
clap = { version = "*", features = ["derive"] }
colored = "*"
dialoguer = "*"
indicatif = "*"
reqwest = { version = "*", default-features = false, features = ["blocking", "json"] }
semver = "*"
serde = { version = "*", features = ["derive"] }
