[package]
name = "odyssey"
version = "0.1.0"
edition = "2021"
publish = false

[dependencies]
bimap = "0.6"
clap = { version = "4", features = ["derive"] }
colored = "2"
console = "*"
csv = "1"
indicatif = "*"
marked-yaml = "*"
serde = { version = "1", features = ["derive"] }
serde_json = "1"
thiserror = "*"
