[package]
name = "yas_scanner"
version = "0.1.0"
edition = "2021"
publish = false

[dependencies]
regex = "*"
image = "*"
enigo = "0.1"
serde = { version = "*", features = ["derive"] }
serde_json = "*"
clap = { version = "*", features = ["derive"] }
