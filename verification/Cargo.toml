[package]
name = "ai_mergetool"
version = "0.1.0"
edition = "2021"
publish = false

[dependencies]
clap = { version = "*", features = ["derive"] }
dirs = "*"
humantime = "*"
jiff = "*"
owo-colors = "*"
serde = { version = "*", features = ["derive"] }
serde_json = "*"
termimad = "*"
toml = "*"
