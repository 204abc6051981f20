[package]
name = "iab_gpp"
version = "0.1.0"
edition = "2021"
publish = false

[dependencies]
fnv = "1"
clap = { version = "4", features = ["derive"] }
colored_json = "*"
serde = { version = "1", features = ["derive"] }
serde_json = "1"
